//! Defaults, checks and the request of a new voting room.

use vstd::prelude::*;
use crate::modelo::NuevaSalaVotacion;
use crate::registrar::vista_resultado;
use crate::respuesta::{vista_accion, vista_respuesta, AccionServidor, Siguiente};
use crate::texto::{solo_espacios, vacio_tras_recortar};
use crate::tiempo::{
    ahora_local, fecha_antes, fecha_de, fecha_leida, fecha_valida, formatear_fecha, formatear_hora,
    hora_antes, hora_de, hora_leida, hora_mas_segundos, hora_valida, leer_fecha, leer_hora,
    momento_valido, sumar_segundos, texto_fecha, texto_hms, Fecha, Hora, Momento, SEGUNDOS_MAX,
};

verus! {

/// The start time used when the field is left empty: one minute after `ahora`,
/// as `%H:%M:%S`; a filled field is kept as it is.
pub open spec fn hora_predeterminada(entrada: Seq<char>, ahora: Hora) -> Seq<char> {
    if entrada.len() == 0 {
        texto_hms(hora_mas_segundos(ahora, 60))
    } else {
        entrada
    }
}

/// The start date used when the field is left empty: `hoy` as `%Y-%m-%d`; a
/// filled field is kept as it is.
pub open spec fn fecha_predeterminada(entrada: Seq<char>, hoy: Fecha) -> Seq<char> {
    if entrada.len() == 0 {
        texto_fecha(hoy)
    } else {
        entrada
    }
}

/// The start date read from the text is today or later; text that does not
/// read as a date is refused.
pub open spec fn fecha_inicio_vigente(leida: Option<(i32, u32, u32)>, hoy: Fecha) -> bool {
    match leida {
        Some(f) => !fecha_antes(fecha_de(f), hoy),
        None => false,
    }
}

/// The start time read from the text is not already past: it is checked
/// against the present time only when the start date is today.
pub open spec fn hora_inicio_vigente(
    hora: Option<(u32, u32, u32, u32)>,
    fecha: Option<(i32, u32, u32)>,
    ahora: Momento,
) -> bool {
    match (hora, fecha) {
        (Some(h), Some(f)) => fecha_de(f) == ahora.fecha ==> !hora_antes(hora_de(h), ahora.hora),
        _ => false,
    }
}

pub open spec fn msg_vacios_basica() -> Seq<char> {
    "No puede haber campos vacíos"@
}

pub open spec fn msg_participantes_basica() -> Seq<char> {
    "Numero de participantes debe de ser entre 1 y 100"@
}

pub open spec fn msg_vacios_premium() -> Seq<char> {
    "No puede haber campos vacios"@
}

pub open spec fn msg_participantes_premium() -> Seq<char> {
    "Numero de participantes debe de ser entre 1 y 1000"@
}

pub open spec fn msg_horas() -> Seq<char> {
    "Numero de horas debe de ser entre 1 y 24"@
}

pub open spec fn msg_fecha_pasada() -> Seq<char> {
    "La fecha de inicio no puede ser pasada"@
}

pub open spec fn msg_hora_pasada() -> Seq<char> {
    "La hora de inicio no puede ser pasada"@
}

/// What a basic room is answered: name and description must hold more than
/// white space, and between 1 and 100 may take part.
pub open spec fn resultado_sala_basica(nombre: Seq<char>, descripcion: Seq<char>, participantes: int) -> Result<(), Seq<char>> {
    if solo_espacios(nombre) || solo_espacios(descripcion) {
        Err(msg_vacios_basica())
    } else if participantes > 100 || participantes < 1 {
        Err(msg_participantes_basica())
    } else {
        Ok(())
    }
}

/// What a premium room is answered at the moment `ahora`: name and description
/// must not be empty, between 1 and 1000 may take part, and a room that does
/// not recur must not start in the past. The duration test is kept as it is
/// written: a number cannot be both above 24 and below 1.
pub open spec fn resultado_sala_premium(
    nombre: Seq<char>,
    descripcion: Seq<char>,
    participantes: int,
    fecha: Seq<char>,
    hora: Seq<char>,
    duracion: int,
    recurrente: bool,
    ahora: Momento,
) -> Result<(), Seq<char>> {
    if nombre.len() == 0 || descripcion.len() == 0 {
        Err(msg_vacios_premium())
    } else if participantes > 1000 || participantes < 1 {
        Err(msg_participantes_premium())
    } else if !recurrente && (duracion > 24 && duracion < 1) {
        Err(msg_horas())
    } else if !recurrente && !fecha_inicio_vigente(fecha_leida(fecha), ahora.fecha) {
        Err(msg_fecha_pasada())
    } else if !recurrente && !hora_inicio_vigente(hora_leida(hora), fecha_leida(fecha), ahora) {
        Err(msg_hora_pasada())
    } else {
        Ok(())
    }
}

/// The start time, or the default one minute after `ahora` when it is empty.
pub fn hora_predeterminada_con(hora_input: &str, ahora: Hora) -> (r: String)
    requires
        hora_valida(ahora),
    ensures
        r@ == hora_predeterminada(hora_input@, ahora),
{
    if hora_input.is_empty() {
        let hora = sumar_segundos(ahora, 60);
        formatear_hora(hora)
    } else {
        String::from_str(hora_input)
    }
}

/// The start time, or one minute after the present local time when it is empty.
pub fn establecer_hora_predeterminada(hora_input: &str) -> (r: String)
    ensures
        hora_input@.len() > 0 ==> r@ == hora_input@,
        exists|ahora: Hora| hora_valida(ahora) && r@ == hora_predeterminada(hora_input@, ahora),
{
    let ahora = ahora_local();
    hora_predeterminada_con(hora_input, ahora.hora)
}

/// The start date, or `hoy` when it is empty.
pub fn fecha_predeterminada_con(fecha_input: &str, hoy: Fecha) -> (r: String)
    requires
        fecha_valida(hoy),
    ensures
        r@ == fecha_predeterminada(fecha_input@, hoy),
{
    if fecha_input.is_empty() {
        formatear_fecha(hoy)
    } else {
        String::from_str(fecha_input)
    }
}

/// The start date, or the present local date when it is empty.
pub fn establecer_fecha_predeterminada(fecha_input: &str) -> (r: String)
    ensures
        fecha_input@.len() > 0 ==> r@ == fecha_input@,
        exists|hoy: Fecha| fecha_valida(hoy) && r@ == fecha_predeterminada(fecha_input@, hoy),
{
    let ahora = ahora_local();
    fecha_predeterminada_con(fecha_input, ahora.fecha)
}

/// Whether a start date, as read, is today or later.
pub fn fecha_vigente(leida: Option<(i32, u32, u32)>, hoy: Fecha) -> (r: bool)
    ensures
        r == fecha_inicio_vigente(leida, hoy),
{
    match leida {
        Some((anio, mes, dia)) => {
            if anio != hoy.anio {
                anio > hoy.anio
            } else if mes != hoy.mes {
                mes > hoy.mes
            } else {
                dia >= hoy.dia
            }
        },
        None => false,
    }
}

/// Whether the text `date_inicio` reads as a date (`%Y-%m-%d`) that is not
/// before the date of `hoy`.
pub fn verificar_date_inicio(date_inicio: &str, hoy: Momento) -> (r: bool)
    ensures
        r == fecha_inicio_vigente(fecha_leida(date_inicio@), hoy.fecha),
{
    let leida = leer_fecha(date_inicio);
    fecha_vigente(leida, hoy.fecha)
}

/// Whether a start time, as read, is not already past at `ahora`.
pub fn hora_vigente(hora: Option<(u32, u32, u32, u32)>, fecha: Option<(i32, u32, u32)>, ahora: Momento) -> (r: bool)
    ensures
        r == hora_inicio_vigente(hora, fecha, ahora),
{
    match (hora, fecha) {
        (Some((h, m, s, n)), Some((anio, mes, dia))) => {
            if anio == ahora.fecha.anio && mes == ahora.fecha.mes && dia == ahora.fecha.dia {
                let t = ahora.hora;
                if h != t.hora {
                    h > t.hora
                } else if m != t.minuto {
                    m > t.minuto
                } else if s != t.segundo {
                    s > t.segundo
                } else {
                    n >= t.nano
                }
            } else {
                true
            }
        },
        _ => false,
    }
}

/// Whether the texts `time_inicio` (`%H:%M:%S`) and `date_inicio` (`%Y-%m-%d`)
/// both read, and the time is not past when the date is today.
pub fn verificar_time_inicio(time_inicio: &str, date_inicio: &str, hoy: Momento) -> (r: bool)
    ensures
        r == hora_inicio_vigente(hora_leida(time_inicio@), fecha_leida(date_inicio@), hoy),
{
    let hora = leer_hora(time_inicio);
    if hora.is_none() {
        return false;
    }
    let fecha = leer_fecha(date_inicio);
    hora_vigente(hora, fecha, hoy)
}

/// Checks a basic room before it is sent.
pub fn validar_datos_sala_basica(nombre: &str, descripcion: &str, participantes: i32) -> (r: Result<(), &'static str>)
    ensures
        vista_resultado(r) == resultado_sala_basica(nombre@, descripcion@, participantes as int),
{
    if vacio_tras_recortar(nombre) || vacio_tras_recortar(descripcion) {
        Err("No puede haber campos vacíos")
    } else if participantes > 100 || participantes < 1 {
        Err("Numero de participantes debe de ser entre 1 y 100")
    } else {
        Ok(())
    }
}

/// Checks a premium room against the moment `ahora`.
pub fn validar_datos_sala_premium_en(
    nombre: &str,
    descripcion: &str,
    participantes: i32,
    date_inicio: &str,
    time_inicio: &str,
    duracion_sala: i32,
    is_recurrente: bool,
    ahora: Momento,
) -> (r: Result<(), &'static str>)
    ensures
        vista_resultado(r) == resultado_sala_premium(
            nombre@,
            descripcion@,
            participantes as int,
            date_inicio@,
            time_inicio@,
            duracion_sala as int,
            is_recurrente,
            ahora,
        ),
{
    if nombre.is_empty() || descripcion.is_empty() {
        Err("No puede haber campos vacios")
    } else if participantes > 1000 || participantes < 1 {
        Err("Numero de participantes debe de ser entre 1 y 1000")
    } else if !is_recurrente && (duracion_sala > 24 && duracion_sala < 1) {
        Err("Numero de horas debe de ser entre 1 y 24")
    } else if !is_recurrente && !verificar_date_inicio(date_inicio, ahora) {
        Err("La fecha de inicio no puede ser pasada")
    } else if !is_recurrente && !verificar_time_inicio(time_inicio, date_inicio, ahora) {
        Err("La hora de inicio no puede ser pasada")
    } else {
        Ok(())
    }
}

/// Checks a premium room against the present local date and time.
pub fn validar_datos_sala_premium(
    nombre: &str,
    descripcion: &str,
    participantes: i32,
    date_inicio: &str,
    time_inicio: &str,
    duracion_sala: i32,
    is_recurrente: bool,
) -> (r: Result<(), &'static str>)
    ensures
        exists|ahora: Momento|
            momento_valido(ahora) && vista_resultado(r) == resultado_sala_premium(
                nombre@,
                descripcion@,
                participantes as int,
                date_inicio@,
                time_inicio@,
                duracion_sala as int,
                is_recurrente,
                ahora,
            ),
{
    let ahora = ahora_local();
    validar_datos_sala_premium_en(
        nombre,
        descripcion,
        participantes,
        date_inicio,
        time_inicio,
        duracion_sala,
        is_recurrente,
        ahora,
    )
}

/// A duration in hours that `chrono` can turn into a time delta.
pub open spec fn horas_admitidas(horas: int) -> bool {
    -SEGUNDOS_MAX <= horas * 3600 <= SEGUNDOS_MAX
}

/// The room can be built without a panic: a recurring room takes no times; any
/// other needs a start time and date that read and a duration that fits.
pub open spec fn sala_construible(recurrente: bool, fecha: Seq<char>, hora: Seq<char>, horas: int) -> bool {
    recurrente || (hora_leida(hora) is Some && fecha_leida(fecha) is Some && horas_admitidas(horas))
}

/// `s` is the room built from these fields: a recurring room has no times; any
/// other starts on the date read, 20 seconds after the time read, and closes
/// `horas` hours after the time read.
pub open spec fn sala_construida(
    s: NuevaSalaVotacion,
    nombre: String,
    descripcion: String,
    participantes: i32,
    privada: bool,
    filtro_dominio: bool,
    recurrente: bool,
    fecha: Seq<char>,
    hora: Seq<char>,
    horas: int,
    id: i32,
) -> bool {
    &&& s.nombre == nombre
    &&& s.descripcion == descripcion
    &&& s.recurrente == recurrente
    &&& s.privada == privada
    &&& s.filtro_dominio == Some(filtro_dominio)
    &&& s.codigo_acceso matches Some(c) && c@ == Seq::<char>::empty()
    &&& s.max_participantes == participantes
    &&& s.creador_id == id
    &&& s.activa == Some(true)
    &&& if recurrente {
        &&& s.fecha_inicio is None
        &&& s.hora_inicio is None
        &&& s.hora_cierre is None
    } else {
        let t = hora_de(hora_leida(hora)->0);
        &&& s.fecha_inicio == Some(fecha_de(fecha_leida(fecha)->0))
        &&& s.hora_inicio == Some(hora_mas_segundos(t, 20))
        &&& s.hora_cierre == Some(hora_mas_segundos(t, horas * 3600))
    }
}

/// Builds the room that is sent to the server.
pub fn nueva_sala(
    nombre: String,
    descripcion: String,
    num_participantes: i32,
    is_privada: bool,
    is_filtro_dominio: bool,
    is_recurrente: bool,
    date_inicio: &str,
    time_inicio: &str,
    duracion_sala: i64,
    id: i32,
) -> (s: NuevaSalaVotacion)
    requires
        sala_construible(is_recurrente, date_inicio@, time_inicio@, duracion_sala as int),
    ensures
        sala_construida(
            s,
            nombre,
            descripcion,
            num_participantes,
            is_privada,
            is_filtro_dominio,
            is_recurrente,
            date_inicio@,
            time_inicio@,
            duracion_sala as int,
            id,
        ),
{
    let hora_inicio: Option<Hora>;
    let fecha_inicio: Option<Fecha>;
    let hora_cierre: Option<Hora>;
    if is_recurrente {
        hora_inicio = None;
        fecha_inicio = None;
        hora_cierre = None;
    } else {
        let (h, m, sg, n) = leer_hora(time_inicio).unwrap();
        let hora_parseada = Hora { hora: h, minuto: m, segundo: sg, nano: n };
        hora_inicio = Some(sumar_segundos(hora_parseada, 20));
        let (anio, mes, dia) = leer_fecha(date_inicio).unwrap();
        fecha_inicio = Some(Fecha { anio, mes, dia });
        hora_cierre = Some(sumar_segundos(hora_parseada, duracion_sala * 3600));
    }
    let codigo = String::from_str("");
    proof {
        reveal_strlit("");
    }
    assert(codigo@ =~= Seq::<char>::empty());
    NuevaSalaVotacion {
        nombre,
        descripcion,
        recurrente: is_recurrente,
        privada: is_privada,
        max_participantes: num_participantes,
        fecha_inicio,
        hora_inicio,
        hora_cierre,
        creador_id: id,
        filtro_dominio: Some(is_filtro_dominio),
        codigo_acceso: Some(codigo),
        activa: Some(true),
    }
}

/// Builds the room that is sent to the server, or `None` where building it
/// would panic: a start time or date that does not read, or a duration that
/// does not fit in a time delta, for a room that does not recur.
pub fn preparar_sala(
    nombre: String,
    descripcion: String,
    num_participantes: i32,
    is_privada: bool,
    is_filtro_dominio: bool,
    is_recurrente: bool,
    date_inicio: &str,
    time_inicio: &str,
    duracion_sala: i64,
    id: i32,
) -> (r: Option<NuevaSalaVotacion>)
    ensures
        r is Some <==> sala_construible(is_recurrente, date_inicio@, time_inicio@, duracion_sala as int),
        r matches Some(s) ==> sala_construida(
            s,
            nombre,
            descripcion,
            num_participantes,
            is_privada,
            is_filtro_dominio,
            is_recurrente,
            date_inicio@,
            time_inicio@,
            duracion_sala as int,
            id,
        ),
{
    if !is_recurrente {
        if leer_hora(time_inicio).is_none() || leer_fecha(date_inicio).is_none() {
            return None;
        }
        if duracion_sala < -(SEGUNDOS_MAX / 3600) || duracion_sala > SEGUNDOS_MAX / 3600 {
            return None;
        }
    }
    Some(nueva_sala(
        nombre,
        descripcion,
        num_participantes,
        is_privada,
        is_filtro_dominio,
        is_recurrente,
        date_inicio,
        time_inicio,
        duracion_sala,
        id,
    ))
}

/// The step that follows the answer `r` to a room request.
pub open spec fn siguiente_envio_sala(r: Result<u16, Seq<char>>) -> (Siguiente, Seq<char>) {
    match r {
        Ok(estado) => if estado == 200 {
            (Siguiente::SalaCreada, Seq::<char>::empty())
        } else {
            (Siguiente::Nada, Seq::<char>::empty())
        },
        Err(e) => (Siguiente::Mostrar, e),
    }
}

/// What follows sending a room: an answer `200 OK` tells the screen the room
/// was created, any other answer is let pass, and a failed request shows its error.
pub fn tras_envio_sala(respuesta: Result<u16, String>) -> (r: AccionServidor)
    ensures
        vista_accion(r) == siguiente_envio_sala(vista_respuesta(respuesta)),
        match respuesta {
            Ok(estado) => if estado == 200 {
                r == AccionServidor::SalaCreada
            } else {
                r == AccionServidor::Nada
            },
            Err(e) => r == AccionServidor::MostrarError(e),
        },
{
    match respuesta {
        Ok(estado) => if estado == 200 {
            AccionServidor::SalaCreada
        } else {
            AccionServidor::Nada
        },
        Err(e) => AccionServidor::MostrarError(e),
    }
}

} // verus!
