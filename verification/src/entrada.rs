//! What each action of the app's screens decides before any request is made:
//! which messages are shown and which request, if any, goes to the server.

use vstd::prelude::*;
use crate::crear_sala::{resultado_sala_basica, validar_datos_sala_basica};
use crate::modelo::{Credenciales, NuevoUsuario};
use crate::registrar::{resultado_usuario, validar_usuario};
use crate::texto::{entero_decimal, texto_entero, texto_igual};
use crate::tiempo::{
    ahora_utc, fecha_valida, formatear_fecha, formatear_hora, hora_mas_segundos, hora_valida,
    mostrar_fecha, mostrar_hora, sumar_segundos, texto_fecha, texto_hms, texto_hora, Fecha, Hora,
};

verus! {

/// The arguments of a room request, as the screen hands them over.
pub struct SolicitudSala {
    pub nombre: String,
    pub descripcion: String,
    pub num_participantes: i32,
    pub is_privada: bool,
    pub is_filtro_dominio: bool,
    pub is_recurrente: bool,
    pub date_inicio: String,
    pub time_inicio: String,
    pub duracion_sala: i64,
    pub id: i32,
}

/// The messages shown, in order, and the room request sent, if any.
pub struct PlanSala {
    pub avisos: Vec<String>,
    pub solicitud: Option<SolicitudSala>,
}

pub open spec fn msg_login_vacio() -> Seq<char> {
    "Correo o contraseña vacíos"@
}

/// The user id taken from a token, 0 when it could not be read.
pub open spec fn id_o_cero(id: Result<i32, String>) -> i32 {
    match id {
        Ok(u) => u,
        Err(_) => 0,
    }
}

/// The request of a room that starts at `fecha`/`hora` (as texts) and lasts one hour.
pub open spec fn solicitud_de(
    s: SolicitudSala,
    nombre: String,
    descripcion: String,
    participantes: i32,
    privada: bool,
    filtro_dominio: bool,
    fecha: Seq<char>,
    hora: Seq<char>,
    id: i32,
) -> bool {
    &&& s.nombre == nombre
    &&& s.descripcion == descripcion
    &&& s.num_participantes == participantes
    &&& s.is_privada == privada
    &&& s.is_filtro_dominio == filtro_dominio
    &&& !s.is_recurrente
    &&& s.date_inicio@ == fecha
    &&& s.time_inicio@ == hora
    &&& s.duracion_sala == 1
    &&& s.id == id
}

/// A login goes ahead only when both fields are filled.
pub fn preparar_login(correo: String, pswd: String) -> (r: Result<Credenciales, &'static str>)
    ensures
        match r {
            Ok(c) => correo@.len() > 0 && pswd@.len() > 0 && c.email == correo && c.contrasena == pswd,
            Err(m) => (correo@.len() == 0 || pswd@.len() == 0) && m@ == msg_login_vacio(),
        },
{
    if correo.as_str().is_empty() || pswd.as_str().is_empty() {
        Err("Correo o contraseña vacíos")
    } else {
        Ok(Credenciales { email: correo, contrasena: pswd })
    }
}

/// A registration goes ahead only when the account meets the rules of
/// `validar_usuario`; otherwise its message is shown.
pub fn preparar_registro(username: String, correo: String, pswd: String, confirm_pswd: String) -> (r: Result<NuevoUsuario, &'static str>)
    ensures
        match r {
            Ok(u) => resultado_usuario(username@, correo@, pswd@, confirm_pswd@) is Ok && u.nombre == username
                && u.email == correo && u.contrasena == pswd,
            Err(m) => resultado_usuario(username@, correo@, pswd@, confirm_pswd@) == Err::<(), Seq<char>>(m@),
        },
{
    match validar_usuario(username.as_str(), correo.as_str(), pswd.as_str(), confirm_pswd.as_str()) {
        Ok(_) => Ok(NuevoUsuario { nombre: username, email: correo, contrasena: pswd }),
        Err(m) => Err(m),
    }
}

/// A basic room asked for at the UTC date `fecha_utc` and time `hora_utc`: the
/// user id (or the token's error) is shown first; then the room is checked,
/// and either its message is shown or a private-if-asked, one-hour room that
/// starts now is requested.
pub fn preparar_sala_basica_en(
    nombre: String,
    descripcion: String,
    participantes: i32,
    acceso: &str,
    id: Result<i32, String>,
    hora_utc: Hora,
    fecha_utc: Fecha,
) -> (p: PlanSala)
    requires
        hora_valida(hora_utc),
        fecha_valida(fecha_utc),
    ensures
        p.avisos@.len() >= 1,
        p.avisos@[0]@ == match id {
            Ok(u) => entero_decimal(u as int),
            Err(e) => e@,
        },
        match resultado_sala_basica(nombre@, descripcion@, participantes as int) {
            Ok(_) => p.avisos@.len() == 1 && (p.solicitud matches Some(s) && solicitud_de(
                s,
                nombre,
                descripcion,
                participantes,
                acceso@ == "Privado"@,
                false,
                texto_fecha(fecha_utc),
                texto_hms(hora_utc),
                id_o_cero(id),
            )),
            Err(m) => p.avisos@.len() == 2 && p.avisos@[1]@ == m && p.solicitud is None,
        },
{
    let is_privada = texto_igual(acceso, "Privado");
    let time_inicio = formatear_hora(hora_utc);
    let date_inicio = formatear_fecha(fecha_utc);
    let mut avisos: Vec<String> = Vec::new();
    let id_usuario: i32 = match id {
        Ok(u) => {
            avisos.push(texto_entero(u));
            u
        },
        Err(e) => {
            avisos.push(e);
            0
        },
    };
    match validar_datos_sala_basica(nombre.as_str(), descripcion.as_str(), participantes) {
        Ok(_) => {
            let s = SolicitudSala {
                nombre,
                descripcion,
                num_participantes: participantes,
                is_privada,
                is_filtro_dominio: false,
                is_recurrente: false,
                date_inicio,
                time_inicio,
                duracion_sala: 1,
                id: id_usuario,
            };
            PlanSala { avisos, solicitud: Some(s) }
        },
        Err(m) => {
            avisos.push(String::from_str(m));
            PlanSala { avisos, solicitud: None }
        },
    }
}

/// A basic room asked for now: the present UTC time and then the present UTC
/// date are read, and the plan is that of `preparar_sala_basica_en`.
pub fn preparar_sala_basica(
    nombre: String,
    descripcion: String,
    participantes: i32,
    acceso: &str,
    id: Result<i32, String>,
) -> (p: PlanSala)
    ensures
        p.avisos@.len() >= 1,
        p.avisos@[0]@ == match id {
            Ok(u) => entero_decimal(u as int),
            Err(e) => e@,
        },
        exists|hora_utc: Hora, fecha_utc: Fecha|
            hora_valida(hora_utc) && fecha_valida(fecha_utc) && match resultado_sala_basica(
                nombre@,
                descripcion@,
                participantes as int,
            ) {
                Ok(_) => p.avisos@.len() == 1 && (p.solicitud matches Some(s) && solicitud_de(
                    s,
                    nombre,
                    descripcion,
                    participantes,
                    acceso@ == "Privado"@,
                    false,
                    texto_fecha(fecha_utc),
                    texto_hms(hora_utc),
                    id_o_cero(id),
                )),
                Err(m) => p.avisos@.len() == 2 && p.avisos@[1]@ == m && p.solicitud is None,
            },
{
    let hora_utc = ahora_utc().hora;
    let fecha_utc = ahora_utc().fecha;
    preparar_sala_basica_en(nombre, descripcion, participantes, acceso, id, hora_utc, fecha_utc)
}

/// A premium room asked for at the UTC date `fecha_utc` and time `hora_utc`:
/// it is checked with the rules of a basic room, and either the message is
/// shown or a one-hour room is requested that starts 20 seconds from now
/// (the time printed with its fraction of a second), private and restricted
/// to mail domains if asked. A token that could not be read gives user id 0.
pub fn preparar_sala_premium_en(
    nombre: String,
    descripcion: String,
    participantes: i32,
    acceso: &str,
    autorizacion: &str,
    id: Result<i32, String>,
    hora_utc: Hora,
    fecha_utc: Fecha,
) -> (p: PlanSala)
    requires
        hora_valida(hora_utc),
        fecha_valida(fecha_utc),
    ensures
        match resultado_sala_basica(nombre@, descripcion@, participantes as int) {
            Ok(_) => p.avisos@.len() == 0 && (p.solicitud matches Some(s) && solicitud_de(
                s,
                nombre,
                descripcion,
                participantes,
                acceso@ == "Privado"@,
                autorizacion@ == "Dominios de Correos"@,
                texto_fecha(fecha_utc),
                texto_hora(hora_mas_segundos(hora_utc, 20)),
                id_o_cero(id),
            )),
            Err(m) => p.avisos@.len() == 1 && p.avisos@[0]@ == m && p.solicitud is None,
        },
{
    let is_privada = texto_igual(acceso, "Privado");
    let is_filtro_dominio = texto_igual(autorizacion, "Dominios de Correos");
    let time_inicio = mostrar_hora(sumar_segundos(hora_utc, 20));
    let date_inicio = mostrar_fecha(fecha_utc);
    let id_usuario: i32 = match id {
        Ok(u) => u,
        Err(_) => 0,
    };
    let mut avisos: Vec<String> = Vec::new();
    match validar_datos_sala_basica(nombre.as_str(), descripcion.as_str(), participantes) {
        Ok(_) => {
            let s = SolicitudSala {
                nombre,
                descripcion,
                num_participantes: participantes,
                is_privada,
                is_filtro_dominio,
                is_recurrente: false,
                date_inicio,
                time_inicio,
                duracion_sala: 1,
                id: id_usuario,
            };
            PlanSala { avisos, solicitud: Some(s) }
        },
        Err(m) => {
            avisos.push(String::from_str(m));
            PlanSala { avisos, solicitud: None }
        },
    }
}

/// A premium room asked for now: the present UTC time and then the present
/// UTC date are read, and the plan is that of `preparar_sala_premium_en`.
pub fn preparar_sala_premium(
    nombre: String,
    descripcion: String,
    participantes: i32,
    acceso: &str,
    autorizacion: &str,
    id: Result<i32, String>,
) -> (p: PlanSala)
    ensures
        exists|hora_utc: Hora, fecha_utc: Fecha|
            hora_valida(hora_utc) && fecha_valida(fecha_utc) && match resultado_sala_basica(
                nombre@,
                descripcion@,
                participantes as int,
            ) {
                Ok(_) => p.avisos@.len() == 0 && (p.solicitud matches Some(s) && solicitud_de(
                    s,
                    nombre,
                    descripcion,
                    participantes,
                    acceso@ == "Privado"@,
                    autorizacion@ == "Dominios de Correos"@,
                    texto_fecha(fecha_utc),
                    texto_hora(hora_mas_segundos(hora_utc, 20)),
                    id_o_cero(id),
                )),
                Err(m) => p.avisos@.len() == 1 && p.avisos@[0]@ == m && p.solicitud is None,
            },
{
    let hora_utc = ahora_utc().hora;
    let fecha_utc = ahora_utc().fecha;
    preparar_sala_premium_en(nombre, descripcion, participantes, acceso, autorizacion, id, hora_utc, fecha_utc)
}

} // verus!
