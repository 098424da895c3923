//! Properties of the library that span several calls or every input.

use vstd::prelude::*;
use vstd::arithmetic::div_mod::{lemma_add_mod_noop, lemma_div_denominator, lemma_fundamental_div_mod, lemma_mod_bound};
use crate::crear_sala::{
    fecha_inicio_vigente, fecha_predeterminada, hora_inicio_vigente, hora_predeterminada,
    resultado_sala_basica, resultado_sala_premium, sala_construida, siguiente_envio_sala,
};
use crate::modelo::NuevaSalaVotacion;
use crate::login::siguiente_login;
use crate::respuesta::Siguiente;
use crate::p2pcon::{eventos_atendidos, mensaje_de, EventoNodo, P2PMessage, MAX_EVENTS};
use crate::registrar::{
    correo_aceptado, resultado_usuario, siguiente_registro, tiene_digito, tiene_especial, tiene_mayuscula,
    tiene_minuscula,
};
use crate::texto::{ceros, con_ceros, decimal, digito, entero_decimal, es_espacio_blanco, solo_espacios};
use crate::tiempo::{
    fecha_de, fecha_leida, hora_de, hora_valida, segundo_mostrado, texto_fecha, texto_fraccion, texto_hms, hora_de_segundos, hora_leida, hora_mas_segundos,
    segundos_del_dia, Fecha, Hora, Momento,
};

verus! {

/// Filling in a default start time settles it: a field filled once, by the
/// user or by the default, is kept as it is whenever it is filled in again.
pub proof fn ley_hora_predeterminada_estable(entrada: Seq<char>, ahora: Hora, despues: Hora)
    ensures
        hora_predeterminada(hora_predeterminada(entrada, ahora), despues) == hora_predeterminada(entrada, ahora),
{
}

/// Filling in a default start date settles it in the same way.
pub proof fn ley_fecha_predeterminada_estable(entrada: Seq<char>, hoy: Fecha, despues: Fecha)
    ensures
        fecha_predeterminada(fecha_predeterminada(entrada, hoy), despues) == fecha_predeterminada(entrada, hoy),
{
}

/// The duration of a premium room never changes what it is answered: no
/// duration is refused.
pub proof fn ley_duracion_indiferente(
    nombre: Seq<char>,
    descripcion: Seq<char>,
    participantes: int,
    fecha: Seq<char>,
    hora: Seq<char>,
    duracion: int,
    otra_duracion: int,
    recurrente: bool,
    ahora: Momento,
)
    ensures
        resultado_sala_premium(nombre, descripcion, participantes, fecha, hora, duracion, recurrente, ahora)
            == resultado_sala_premium(nombre, descripcion, participantes, fecha, hora, otra_duracion, recurrente, ahora),
{
}

/// A recurring premium room is answered the same whatever its start date and
/// time and whenever it is checked.
pub proof fn ley_recurrente_sin_horario(
    nombre: Seq<char>,
    descripcion: Seq<char>,
    participantes: int,
    fecha: Seq<char>,
    hora: Seq<char>,
    duracion: int,
    ahora: Momento,
    otra_fecha: Seq<char>,
    otra_hora: Seq<char>,
    otra_duracion: int,
    otro_momento: Momento,
)
    ensures
        resultado_sala_premium(nombre, descripcion, participantes, fecha, hora, duracion, true, ahora)
            == resultado_sala_premium(
            nombre,
            descripcion,
            participantes,
            otra_fecha,
            otra_hora,
            otra_duracion,
            true,
            otro_momento,
        ),
{
}

/// An account that registration accepts has every field filled, a valid
/// address, a confirmed password of at least eight characters holding a
/// special character, a digit, an upper-case and a lower-case letter.
pub proof fn ley_cuenta_aceptada(usuario: Seq<char>, correo: Seq<char>, pswd: Seq<char>, confirmacion: Seq<char>)
    requires
        resultado_usuario(usuario, correo, pswd, confirmacion) is Ok,
    ensures
        usuario.len() > 0,
        correo_aceptado(correo),
        pswd == confirmacion,
        pswd.len() >= 8,
        tiene_especial(pswd),
        tiene_digito(pswd),
        tiene_mayuscula(pswd),
        tiene_minuscula(pswd),
{
}

/// A basic room that is accepted has a name and a description that are not
/// blank, and between 1 and 100 participants.
pub proof fn ley_sala_basica_aceptada(nombre: Seq<char>, descripcion: Seq<char>, participantes: int)
    requires
        resultado_sala_basica(nombre, descripcion, participantes) is Ok,
    ensures
        !solo_espacios(nombre),
        !solo_espacios(descripcion),
        1 <= participantes <= 100,
{
}

proof fn segundos_ida_y_vuelta(x: int, nano: int)
    requires
        0 <= x < 86400,
        0 <= nano < 1_000_000_000,
    ensures
        segundos_del_dia(hora_de_segundos(x, nano)) == x,
        hora_de_segundos(x, nano).nano == nano,
        hora_de_segundos(x, nano).nano < 1_000_000_000,
{
    lemma_fundamental_div_mod(x, 60);
    lemma_fundamental_div_mod(x / 60, 60);
    lemma_div_denominator(x, 60, 60);
    lemma_mod_bound(x, 60);
    lemma_mod_bound(x / 60, 60);
    assert(x / 3600 < 24);
}

/// Shifting a time of day that is not a leap second by `a` and then by `b`
/// seconds is shifting it by `a + b` seconds.
pub proof fn ley_sumas_encadenadas(t: Hora, a: int, b: int)
    requires
        t.nano < 1_000_000_000,
    ensures
        hora_mas_segundos(hora_mas_segundos(t, a), b) == hora_mas_segundos(t, a + b),
{
    let s = segundos_del_dia(t);
    let x = (s + a) % 86400;
    lemma_mod_bound(s + a, 86400);
    segundos_ida_y_vuelta(x, t.nano as int);
    lemma_add_mod_noop(s + a, b, 86400);
    lemma_add_mod_noop(x, b, 86400);
    lemma_mod_bound(b, 86400);
    assert((x % 86400) == x) by {
        vstd::arithmetic::div_mod::lemma_small_mod(x as nat, 86400);
    }
}

/// A room that does not recur, asked for at a time that is not a leap
/// second, closes `horas` hours after the time asked for: its closing time is
/// its opening time shifted by `horas` hours less the 20 seconds of margin.
pub proof fn ley_cierre_tras_apertura(
    s: NuevaSalaVotacion,
    nombre: String,
    descripcion: String,
    participantes: i32,
    privada: bool,
    filtro_dominio: bool,
    fecha: Seq<char>,
    hora: Seq<char>,
    horas: int,
    id: i32,
)
    requires
        sala_construida(s, nombre, descripcion, participantes, privada, filtro_dominio, false, fecha, hora, horas, id),
        hora_leida(hora) matches Some(t) && t.3 < 1_000_000_000,
    ensures
        s.hora_cierre == Some(hora_mas_segundos(s.hora_inicio->0, horas * 3600 - 20)),
{
    ley_sumas_encadenadas(hora_de(hora_leida(hora)->0), 20, horas * 3600 - 20);
}

/// The node handles one event at a time until it has handled `MAX_EVENTS`:
/// out of any run of events it handles as many as come, up to that bound.
pub proof fn ley_nodo_atiende_hasta_el_maximo(atendidos: nat, eventos: Seq<EventoNodo>)
    requires
        atendidos <= MAX_EVENTS,
    ensures
        eventos_atendidos(atendidos, eventos) == if atendidos + eventos.len() < MAX_EVENTS {
            atendidos + eventos.len()
        } else {
            MAX_EVENTS as nat
        },
    decreases eventos.len(),
{
    if atendidos < MAX_EVENTS && eventos.len() > 0 {
        ley_nodo_atiende_hasta_el_maximo(atendidos + 1, eventos.drop_first());
    }
}

/// `p` holds a character that is neither an ASCII digit nor an ASCII letter.
pub open spec fn con_caracter_especial(p: Seq<char>) -> bool {
    exists|i: int| 0 <= i < p.len() && !(('0' <= #[trigger] p[i] && p[i] <= '9') || ('A' <= p[i] && p[i] <= 'Z') || ('a' <= p[i] && p[i] <= 'z'))
}

/// `p` holds a character between `desde` and `hasta`.
pub open spec fn con_caracter_entre(p: Seq<char>, desde: char, hasta: char) -> bool {
    exists|i: int| 0 <= i < p.len() && desde <= #[trigger] p[i] && p[i] <= hasta
}

/// `c` has an `'@'`, and after the first one, before any other `'@'`, a `'.'`.
pub open spec fn con_dominio(c: Seq<char>) -> bool {
    exists|i: int, k: int|
        0 <= i < k < c.len() && #[trigger] c[i] == '@' && #[trigger] c[k] == '.' && (forall|j: int| 0 <= j < i ==> c[j] != '@')
            && (forall|j: int| i < j < k ==> c[j] != '@')
}

/// An account is accepted exactly when every field is filled, the address has
/// a domain with a dot after its first `'@'`, the password equals its
/// confirmation, has at least eight characters (and no upper limit), and holds
/// a special character, a digit, an upper-case and a lower-case letter.
pub proof fn ley_cuenta_aceptada_si_y_solo_si(usuario: Seq<char>, correo: Seq<char>, pswd: Seq<char>, confirmacion: Seq<char>)
    ensures
        (resultado_usuario(usuario, correo, pswd, confirmacion) == Ok::<(), Seq<char>>(())) <==> (
            usuario.len() > 0
            && correo.len() > 0
            && con_dominio(correo)
            && pswd == confirmacion
            && pswd.len() >= 8
            && con_caracter_especial(pswd)
            && con_caracter_entre(pswd, '0', '9')
            && con_caracter_entre(pswd, 'A', 'Z')
            && con_caracter_entre(pswd, 'a', 'z')),
{
    assert(correo_aceptado(correo) <==> con_dominio(correo)) by {
        if correo_aceptado(correo) {
            let i = choose|i: int| #[trigger] crate::registrar::primera_arroba(correo, i) && exists|k: int|
                i < k < correo.len() && correo[k] == '.' && forall|j: int| i < j < k ==> correo[j] != '@';
            let k = choose|k: int| i < k < correo.len() && correo[k] == '.' && forall|j: int| i < j < k ==> correo[j] != '@';
            assert(correo[i] == '@' && correo[k] == '.');
        }
        if con_dominio(correo) {
            let (i, k) = choose|i: int, k: int|
                0 <= i < k < correo.len() && #[trigger] correo[i] == '@' && #[trigger] correo[k] == '.' && (forall|j: int| 0 <= j < i ==> correo[j] != '@')
                    && (forall|j: int| i < j < k ==> correo[j] != '@');
            assert(crate::registrar::primera_arroba(correo, i));
        }
    }
    assert(tiene_especial(pswd) <==> con_caracter_especial(pswd)) by {
        if tiene_especial(pswd) {
            let i = choose|i: int| 0 <= i < pswd.len() && !crate::texto::es_alfanumerico_ascii(#[trigger] pswd[i]);
            assert(!(('0' <= pswd[i] && pswd[i] <= '9') || ('A' <= pswd[i] && pswd[i] <= 'Z') || ('a' <= pswd[i] && pswd[i] <= 'z')));
        }
        if con_caracter_especial(pswd) {
            let i = choose|i: int| 0 <= i < pswd.len() && !(('0' <= #[trigger] pswd[i] && pswd[i] <= '9') || ('A' <= pswd[i] && pswd[i] <= 'Z') || ('a' <= pswd[i] && pswd[i] <= 'z'));
            assert(!crate::texto::es_alfanumerico_ascii(pswd[i]));
        }
    }
    assert(tiene_digito(pswd) <==> con_caracter_entre(pswd, '0', '9')) by {
        if tiene_digito(pswd) {
            let i = choose|i: int| 0 <= i < pswd.len() && crate::texto::es_digito_ascii(#[trigger] pswd[i]);
            assert('0' <= pswd[i] && pswd[i] <= '9');
        }
        if con_caracter_entre(pswd, '0', '9') {
            let i = choose|i: int| 0 <= i < pswd.len() && '0' <= #[trigger] pswd[i] && pswd[i] <= '9';
            assert(crate::texto::es_digito_ascii(pswd[i]));
        }
    }
    assert(tiene_mayuscula(pswd) <==> con_caracter_entre(pswd, 'A', 'Z')) by {
        if tiene_mayuscula(pswd) {
            let i = choose|i: int| 0 <= i < pswd.len() && crate::texto::es_mayuscula_ascii(#[trigger] pswd[i]);
            assert('A' <= pswd[i] && pswd[i] <= 'Z');
        }
        if con_caracter_entre(pswd, 'A', 'Z') {
            let i = choose|i: int| 0 <= i < pswd.len() && 'A' <= #[trigger] pswd[i] && pswd[i] <= 'Z';
            assert(crate::texto::es_mayuscula_ascii(pswd[i]));
        }
    }
    assert(tiene_minuscula(pswd) <==> con_caracter_entre(pswd, 'a', 'z')) by {
        if tiene_minuscula(pswd) {
            let i = choose|i: int| 0 <= i < pswd.len() && crate::texto::es_minuscula_ascii(#[trigger] pswd[i]);
            assert('a' <= pswd[i] && pswd[i] <= 'z');
        }
        if con_caracter_entre(pswd, 'a', 'z') {
            let i = choose|i: int| 0 <= i < pswd.len() && 'a' <= #[trigger] pswd[i] && pswd[i] <= 'z';
            assert(crate::texto::es_minuscula_ascii(pswd[i]));
        }
    }
}

/// A start date that reads is accepted exactly when it is not earlier than
/// today in calendar order: a later year, or the same year and a later
/// month, or the same year and month and a day not before today's. A text
/// that does not read as a date is refused.
pub proof fn ley_fecha_en_orden_del_calendario(leida: (i32, u32, u32), hoy: Fecha)
    ensures
        fecha_inicio_vigente(Some(leida), hoy) <==> (leida.0 > hoy.anio || (leida.0 == hoy.anio && leida.1 > hoy.mes)
            || (leida.0 == hoy.anio && leida.1 == hoy.mes && leida.2 >= hoy.dia)),
        !fecha_inicio_vigente(None, hoy),
{
}

/// A premium room that does not recur and whose start date reads as a day
/// strictly before today is refused for its date, once its name, description
/// and participants pass.
pub proof fn ley_fecha_pasada_rechazada(
    nombre: Seq<char>,
    descripcion: Seq<char>,
    participantes: int,
    fecha: Seq<char>,
    hora: Seq<char>,
    duracion: int,
    ahora: Momento,
)
    requires
        nombre.len() > 0,
        descripcion.len() > 0,
        1 <= participantes <= 1000,
        fecha_leida(fecha) matches Some(f) && (f.0 < ahora.fecha.anio || (f.0 == ahora.fecha.anio && f.1 < ahora.fecha.mes)
            || (f.0 == ahora.fecha.anio && f.1 == ahora.fecha.mes && f.2 < ahora.fecha.dia)),
    ensures
        resultado_sala_premium(nombre, descripcion, participantes, fecha, hora, duracion, false, ahora)
            == Err::<(), Seq<char>>("La fecha de inicio no puede ser pasada"@),
{
}

/// A premium room passes when its name and description are filled, it has 1
/// to 1000 participants, and it recurs or its start date is today or later
/// and its start time is not past (checked only for a start today).
pub proof fn ley_sala_premium_completa(
    nombre: Seq<char>,
    descripcion: Seq<char>,
    participantes: int,
    fecha: Seq<char>,
    hora: Seq<char>,
    duracion: int,
    recurrente: bool,
    ahora: Momento,
)
    requires
        nombre.len() > 0,
        descripcion.len() > 0,
        1 <= participantes <= 1000,
        !recurrente ==> (fecha_leida(fecha) matches Some(f) && hora_leida(hora) matches Some(h) && (f.0 > ahora.fecha.anio
            || (f.0 == ahora.fecha.anio && f.1 > ahora.fecha.mes) || (f.0 == ahora.fecha.anio && f.1 == ahora.fecha.mes
            && f.2 > ahora.fecha.dia) || (f.0 == ahora.fecha.anio && f.1 == ahora.fecha.mes && f.2 == ahora.fecha.dia && !(
            h.0 < ahora.hora.hora || (h.0 == ahora.hora.hora && h.1 < ahora.hora.minuto) || (h.0 == ahora.hora.hora && h.1
            == ahora.hora.minuto && h.2 < ahora.hora.segundo) || (h.0 == ahora.hora.hora && h.1 == ahora.hora.minuto && h.2
            == ahora.hora.segundo && h.3 < ahora.hora.nano))))),
    ensures
        resultado_sala_premium(nombre, descripcion, participantes, fecha, hora, duracion, recurrente, ahora)
            == Ok::<(), Seq<char>>(()),
{
}

/// A basic room passes when its name and description each hold a character
/// that is not white space and it has 1 to 100 participants, whatever their
/// length.
pub proof fn ley_sala_basica_completa(nombre: Seq<char>, descripcion: Seq<char>, participantes: int)
    requires
        exists|i: int| 0 <= i < nombre.len() && !es_espacio_blanco(#[trigger] nombre[i]),
        exists|i: int| 0 <= i < descripcion.len() && !es_espacio_blanco(#[trigger] descripcion[i]),
        1 <= participantes <= 100,
    ensures
        resultado_sala_basica(nombre, descripcion, participantes) == Ok::<(), Seq<char>>(()),
{
}

/// The room built carries what was asked for, unchanged: its name,
/// description, number of participants, privacy, domain filter, recurrence
/// and creator; it is active and has an empty access code; a recurring room
/// has no times, any other starts on the date read.
pub proof fn ley_sala_lleva_lo_pedido(
    s: NuevaSalaVotacion,
    nombre: String,
    descripcion: String,
    participantes: i32,
    privada: bool,
    filtro_dominio: bool,
    recurrente: bool,
    fecha: Seq<char>,
    hora: Seq<char>,
    horas: int,
    id: i32,
)
    requires
        sala_construida(s, nombre, descripcion, participantes, privada, filtro_dominio, recurrente, fecha, hora, horas, id),
    ensures
        s.max_participantes == participantes,
        s.nombre == nombre,
        s.descripcion == descripcion,
        s.privada == privada,
        s.filtro_dominio == Some(filtro_dominio),
        s.recurrente == recurrente,
        s.creador_id == id,
        s.activa == Some(true),
        s.codigo_acceso matches Some(c) && c@.len() == 0,
        recurrente ==> s.fecha_inicio is None && s.hora_inicio is None && s.hora_cierre is None,
        !recurrente ==> (fecha_leida(fecha) matches Some(f) ==> s.fecha_inicio == Some(Fecha { anio: f.0, mes: f.1, dia: f.2 })),
{
}

/// The number that a run of decimal digits stands for.
pub open spec fn valor_decimal(s: Seq<char>) -> nat
    decreases s.len(),
{
    if s.len() == 0 {
        0
    } else {
        10 * valor_decimal(s.drop_last()) + ((s.last() as int) - 48) as nat
    }
}

/// `s` is a numeral: decimal digits only, at least one, no leading zero.
pub open spec fn es_numeral(s: Seq<char>) -> bool {
    &&& s.len() > 0
    &&& forall|i: int| 0 <= i < s.len() ==> '0' <= #[trigger] s[i] && s[i] <= '9'
    &&& s.len() > 1 ==> s[0] != '0'
}

proof fn digito_vuelve(d: int)
    requires
        0 <= d < 10,
    ensures
        digito(d) as int == 48 + d,
        '0' <= digito(d) && digito(d) <= '9',
{
    if d == 0 { assert(digito(0) == '0'); } else if d == 1 { assert(digito(1) == '1'); } else if d == 2 {
        assert(digito(2) == '2');
    } else if d == 3 { assert(digito(3) == '3'); } else if d == 4 { assert(digito(4) == '4'); } else if d == 5 {
        assert(digito(5) == '5');
    } else if d == 6 { assert(digito(6) == '6'); } else if d == 7 { assert(digito(7) == '7'); } else if d == 8 {
        assert(digito(8) == '8');
    } else { assert(digito(9) == '9'); }
}

/// The decimal text of a number is a numeral that reads back as that number.
pub proof fn ley_decimal_se_lee(n: nat)
    ensures
        es_numeral(decimal(n)),
        valor_decimal(decimal(n)) == n,
        n >= 1 ==> decimal(n)[0] != '0',
    decreases n,
{
    if n < 10 {
        digito_vuelve(n as int);
        assert(decimal(n) =~= seq![digito(n as int)]);
        assert(decimal(n).drop_last() =~= Seq::<char>::empty());
        assert(valor_decimal(Seq::<char>::empty()) == 0);
        assert(decimal(n).last() == digito(n as int));
        assert(valor_decimal(decimal(n)) == 10 * valor_decimal(decimal(n).drop_last()) + ((decimal(n).last() as int) - 48) as nat);
    } else {
        ley_decimal_se_lee(n / 10);
        digito_vuelve((n % 10) as int);
        let d = decimal(n / 10);
        assert(decimal(n) == d.push(digito((n % 10) as int)));
        assert(decimal(n).drop_last() =~= d);
        assert(decimal(n)[0] == d[0]);
        assert(decimal(n).last() == digito((n % 10) as int));
        assert(valor_decimal(decimal(n)) == 10 * valor_decimal(decimal(n).drop_last()) + ((decimal(n).last() as int) - 48) as nat);
        assert(n == 10 * (n / 10) + n % 10);
    }
}

/// The message of a successful ping names the first five characters of the
/// peer and shows the measured milliseconds in full: between ` - en solo: `
/// and `ms` stands a numeral that reads as the measured time.
pub proof fn ley_ping_muestra_milisegundos(peer: String, milisegundos: u128, m: Option<P2PMessage>)
    requires
        mensaje_de(EventoNodo::PingExitoso { peer, milisegundos }, m),
    ensures
        m matches Some(P2PMessage::PeerEvent(t)) && exists|cifras: Seq<char>|
            #![trigger es_numeral(cifras)]
            es_numeral(cifras) && valor_decimal(cifras) == milisegundos && t@ == " Ping exitoso a: "@
                + peer@.take(if peer@.len() < 5 { peer@.len() as int } else { 5 }) + "..."@ + " - en solo: "@ + cifras
                + "ms"@,
{
    ley_decimal_se_lee(milisegundos as nat);
    let cifras = decimal(milisegundos as nat);
    assert(es_numeral(cifras));
}

/// The message of a failed ping names the first five characters of the peer
/// and ends with the failure, word for word.
pub proof fn ley_ping_fallido_muestra_fallo(peer: String, fallo: String, m: Option<P2PMessage>)
    requires
        mensaje_de(EventoNodo::PingFallido { peer, fallo }, m),
    ensures
        m matches Some(P2PMessage::PeerEvent(t)) && t@ == "Ping fallido a "@ + peer@.take(
            if peer@.len() < 5 { peer@.len() as int } else { 5 },
        ) + "..."@ + ": "@ + fallo@,
{
}

/// After a login: any success code (200 to 299) reads the saved user; too
/// many attempts (429) and wrong credentials (401) show their messages; any
/// other code shows nothing; a failed request shows its own error.
pub proof fn ley_respuesta_login(estado: u16, error: Seq<char>)
    ensures
        200 <= estado <= 299 ==> siguiente_login(Ok(estado)) == (Siguiente::LeerUsuario, Seq::<char>::empty()),
        siguiente_login(Ok(429)) == (
            Siguiente::Mostrar,
            "Se ha tratado de ingresar mas de 10 ocasiones a la cuenta. Espere 5 minutos."@,
        ),
        siguiente_login(Ok(401)) == (Siguiente::Mostrar, "Credenciales no validas"@),
        !(200 <= estado <= 299) && estado != 429 && estado != 401 ==> siguiente_login(Ok(estado)).0 == Siguiente::Nada,
        siguiente_login(Err(error)) == (Siguiente::Mostrar, error),
{
}

/// After a registration: any success code reads the saved user; an address
/// already taken (409) is shown; the body of any other answer is read and
/// shown; a failed request shows its own error.
pub proof fn ley_respuesta_registro(estado: u16, error: Seq<char>)
    ensures
        200 <= estado <= 299 ==> siguiente_registro(Ok(estado)) == (Siguiente::LeerUsuario, Seq::<char>::empty()),
        siguiente_registro(Ok(409)) == (Siguiente::Mostrar, "Correo electronico ya registrado"@),
        !(200 <= estado <= 299) && estado != 409 ==> siguiente_registro(Ok(estado)).0 == Siguiente::LeerTexto,
        siguiente_registro(Err(error)) == (Siguiente::Mostrar, error),
{
}

/// After sending a room: only `200 OK` tells the screen the room was created;
/// a failed request shows its own error; nothing else shows anything.
pub proof fn ley_respuesta_sala(estado: u16, error: Seq<char>)
    ensures
        siguiente_envio_sala(Ok(200)).0 == Siguiente::SalaCreada,
        estado != 200 ==> siguiente_envio_sala(Ok(estado)).0 == Siguiente::Nada,
        siguiente_envio_sala(Err(error)) == (Siguiente::Mostrar, error),
{
}

/// Shifting a time of day by `k` seconds moves its seconds since midnight by
/// `k`, round midnight, and gives a valid time that is no leap second; the
/// fraction of the second is kept (a leap second counts as the second that
/// follows it when going back).
pub proof fn ley_desplazamiento(t: Hora, k: int)
    requires
        hora_valida(t),
        k != 0,
    ensures
        hora_valida(hora_mas_segundos(t, k)),
        hora_mas_segundos(t, k).nano < 1_000_000_000,
        t.nano < 1_000_000_000 ==> hora_mas_segundos(t, k).nano == t.nano
            && segundos_del_dia(hora_mas_segundos(t, k)) == (segundos_del_dia(t) + k) % 86400,
        t.nano >= 1_000_000_000 ==> hora_mas_segundos(t, k).nano == t.nano - 1_000_000_000
            && segundos_del_dia(hora_mas_segundos(t, k)) == (segundos_del_dia(t) + k + if k < 0 { 1int } else { 0int }) % 86400,
{
    let base = segundos_del_dia(t) + if t.nano >= 1_000_000_000 && k < 0 { 1int } else { 0int };
    let nano = if t.nano >= 1_000_000_000 { t.nano - 1_000_000_000 } else { t.nano as int };
    lemma_mod_bound(base + k, 86400);
    segundos_ida_y_vuelta((base + k) % 86400, nano);
    let x = (base + k) % 86400;
    lemma_fundamental_div_mod(x, 60);
    lemma_fundamental_div_mod(x / 60, 60);
    lemma_div_denominator(x, 60, 60);
    lemma_mod_bound(x, 60);
    lemma_mod_bound(x / 60, 60);
}

/// The default start time is the present time plus one minute, round
/// midnight, printed as `HH:MM:SS`.
pub proof fn ley_hora_por_defecto_un_minuto_despues(ahora: Hora)
    requires
        hora_valida(ahora),
    ensures
        ({
            let x = (ahora.hora * 3600 + ahora.minuto * 60 + ahora.segundo + 60) % 86400;
            hora_predeterminada(Seq::<char>::empty(), ahora) == texto_hms(
                Hora { hora: (x / 3600) as u32, minuto: ((x / 60) % 60) as u32, segundo: (x % 60) as u32, nano: 0 },
            )
        }),
{
    ley_desplazamiento(ahora, 60);
}

/// A room that does not recur opens 20 seconds after the time asked for and
/// closes `horas` hours after it, both round midnight, when that time is not
/// a leap second.
pub proof fn ley_horas_de_la_sala(
    s: NuevaSalaVotacion,
    nombre: String,
    descripcion: String,
    participantes: i32,
    privada: bool,
    filtro_dominio: bool,
    fecha: Seq<char>,
    hora: Seq<char>,
    horas: int,
    id: i32,
)
    requires
        sala_construida(s, nombre, descripcion, participantes, privada, filtro_dominio, false, fecha, hora, horas, id),
        hora_leida(hora) matches Some(t) && t.3 < 1_000_000_000,
    ensures
        ({
            let t = hora_leida(hora)->0;
            let pedida = t.0 * 3600 + t.1 * 60 + t.2;
            &&& s.hora_inicio matches Some(a) && segundos_del_dia(a) == (pedida + 20) % 86400 && a.nano == t.3
            &&& s.hora_cierre matches Some(c) && segundos_del_dia(c) == (pedida + horas * 3600) % 86400 && c.nano == t.3
        }),
{
    let t = hora_de(hora_leida(hora)->0);
    let a = segundos_del_dia(t) + 20;
    let c = segundos_del_dia(t) + horas * 3600;
    lemma_mod_bound(a, 86400);
    lemma_mod_bound(c, 86400);
    segundos_ida_y_vuelta(a % 86400, t.nano as int);
    segundos_ida_y_vuelta(c % 86400, t.nano as int);
}

/// A start time that reads, with a start date that reads, is accepted exactly
/// when the date is not today or the time is not before the present one in
/// the order of hours, minutes, seconds and fraction; text that does not read
/// is refused.
pub proof fn ley_hora_inicio(h: (u32, u32, u32, u32), f: (i32, u32, u32), ahora: Momento)
    ensures
        hora_inicio_vigente(Some(h), Some(f), ahora) <==> (!(f.0 == ahora.fecha.anio && f.1 == ahora.fecha.mes && f.2
            == ahora.fecha.dia) || !(h.0 < ahora.hora.hora || (h.0 == ahora.hora.hora && h.1 < ahora.hora.minuto) || (h.0
            == ahora.hora.hora && h.1 == ahora.hora.minuto && h.2 < ahora.hora.segundo) || (h.0 == ahora.hora.hora && h.1
            == ahora.hora.minuto && h.2 == ahora.hora.segundo && h.3 < ahora.hora.nano))),
        !hora_inicio_vigente(None, Some(f), ahora),
        !hora_inicio_vigente(Some(h), None, ahora),
{
}

/// A premium room that is accepted has a name and a description, 1 to 1000
/// participants, and, unless it recurs, a start date that reads and is not
/// before today and a start time that reads and is not past when the start
/// is today.
pub proof fn ley_sala_premium_aceptada(
    nombre: Seq<char>,
    descripcion: Seq<char>,
    participantes: int,
    fecha: Seq<char>,
    hora: Seq<char>,
    duracion: int,
    recurrente: bool,
    ahora: Momento,
)
    requires
        resultado_sala_premium(nombre, descripcion, participantes, fecha, hora, duracion, recurrente, ahora) is Ok,
    ensures
        nombre.len() > 0,
        descripcion.len() > 0,
        1 <= participantes <= 1000,
        !recurrente ==> (fecha_leida(fecha) matches Some(f) && hora_leida(hora) is Some && (f.0 > ahora.fecha.anio || (f.0
            == ahora.fecha.anio && f.1 > ahora.fecha.mes) || (f.0 == ahora.fecha.anio && f.1 == ahora.fecha.mes && f.2
            >= ahora.fecha.dia))),
{
}

/// An integer prints as a numeral that reads back as its size, behind a
/// minus sign when it is negative.
pub proof fn ley_entero_se_lee(n: int)
    ensures
        n >= 0 ==> es_numeral(entero_decimal(n)) && valor_decimal(entero_decimal(n)) == n,
        n < 0 ==> entero_decimal(n)[0] == '-' && es_numeral(entero_decimal(n).drop_first()) && valor_decimal(
            entero_decimal(n).drop_first(),
        ) == -n,
{
    if n >= 0 {
        ley_decimal_se_lee(n as nat);
    } else {
        ley_decimal_se_lee((-n) as nat);
        assert(entero_decimal(n).drop_first() =~= decimal((-n) as nat));
    }
}

proof fn ceros_valen_cero(z: nat)
    ensures
        valor_decimal(ceros(z)) == 0,
    decreases z,
{
    if z > 0 {
        assert(ceros(z).drop_last() =~= ceros((z - 1) as nat));
        ceros_valen_cero((z - 1) as nat);
    }
}

proof fn ceros_delante(z: nat, d: Seq<char>)
    ensures
        valor_decimal(ceros(z) + d) == valor_decimal(d),
    decreases d.len(),
{
    if d.len() == 0 {
        assert(ceros(z) + d =~= ceros(z));
        ceros_valen_cero(z);
    } else {
        assert((ceros(z) + d).drop_last() =~= ceros(z) + d.drop_last());
        ceros_delante(z, d.drop_last());
    }
}

proof fn largo_decimal(n: nat)
    ensures
        n < 10 ==> decimal(n).len() == 1,
        10 <= n < 100 ==> decimal(n).len() == 2,
        100 <= n < 1000 ==> decimal(n).len() == 3,
        1000 <= n < 10000 ==> decimal(n).len() == 4,
        decimal(n).len() >= 1,
    decreases n,
{
    if n >= 10 {
        largo_decimal(n / 10);
    }
}

/// A number padded with zeros to a width is all digits, as wide as the width
/// or its own digits, and reads back as the number.
pub proof fn ley_con_ceros_se_lee(n: nat, ancho: nat)
    ensures
        forall|i: int| 0 <= i < con_ceros(n, ancho).len() ==> '0' <= #[trigger] con_ceros(n, ancho)[i] && con_ceros(n, ancho)[i] <= '9',
        con_ceros(n, ancho).len() == if decimal(n).len() < ancho { ancho as int } else { decimal(n).len() as int },
        valor_decimal(con_ceros(n, ancho)) == n,
{
    ley_decimal_se_lee(n);
    let d = decimal(n);
    if d.len() < ancho {
        let z = (ancho - d.len()) as nat;
        ceros_delante(z, d);
        assert forall|i: int| 0 <= i < con_ceros(n, ancho).len() implies '0' <= #[trigger] con_ceros(n, ancho)[i]
            && con_ceros(n, ancho)[i] <= '9' by {
            if i >= z {
                assert(con_ceros(n, ancho)[i] == d[i - z]);
            }
        }
    }
}

/// The start time printed as `HH:MM:SS` has eight characters, colons third
/// and sixth, and two-digit fields that read back as the hour, the minute
/// and the second shown (60 inside a leap second).
pub proof fn ley_texto_hora(t: Hora)
    requires
        hora_valida(t),
    ensures
        texto_hms(t).len() == 8,
        texto_hms(t)[2] == ':' && texto_hms(t)[5] == ':',
        valor_decimal(texto_hms(t).subrange(0, 2)) == t.hora,
        valor_decimal(texto_hms(t).subrange(3, 5)) == t.minuto,
        valor_decimal(texto_hms(t).subrange(6, 8)) == segundo_mostrado(t),
{
    largo_decimal(t.hora as nat);
    largo_decimal(t.minuto as nat);
    largo_decimal(segundo_mostrado(t));
    ley_con_ceros_se_lee(t.hora as nat, 2);
    ley_con_ceros_se_lee(t.minuto as nat, 2);
    ley_con_ceros_se_lee(segundo_mostrado(t), 2);
    let a = con_ceros(t.hora as nat, 2);
    let b = con_ceros(t.minuto as nat, 2);
    let c = con_ceros(segundo_mostrado(t), 2);
    assert(texto_hms(t).subrange(0, 2) =~= a);
    assert(texto_hms(t).subrange(3, 5) =~= b);
    assert(texto_hms(t).subrange(6, 8) =~= c);
}

/// A date of the years 0 to 9999 prints as `YYYY-MM-DD`: ten characters,
/// dashes fifth and eighth, and fields that read back as the year, the month
/// and the day.
pub proof fn ley_texto_fecha(f: Fecha)
    requires
        0 <= f.anio <= 9999,
        1 <= f.mes <= 12,
        1 <= f.dia <= 31,
    ensures
        texto_fecha(f).len() == 10,
        texto_fecha(f)[4] == '-' && texto_fecha(f)[7] == '-',
        valor_decimal(texto_fecha(f).subrange(0, 4)) == f.anio,
        valor_decimal(texto_fecha(f).subrange(5, 7)) == f.mes,
        valor_decimal(texto_fecha(f).subrange(8, 10)) == f.dia,
{
    largo_decimal(f.anio as nat);
    largo_decimal(f.mes as nat);
    largo_decimal(f.dia as nat);
    ley_con_ceros_se_lee(f.anio as nat, 4);
    ley_con_ceros_se_lee(f.mes as nat, 2);
    ley_con_ceros_se_lee(f.dia as nat, 2);
    let a = con_ceros(f.anio as nat, 4);
    let b = con_ceros(f.mes as nat, 2);
    let c = con_ceros(f.dia as nat, 2);
    assert(texto_fecha(f).subrange(0, 4) =~= a);
    assert(texto_fecha(f).subrange(5, 7) =~= b);
    assert(texto_fecha(f).subrange(8, 10) =~= c);
}

/// The fraction of a second that a printed time carries is nothing for a
/// whole second, and otherwise a point and three, six or nine digits (the
/// fewest that hold it) that, read as a fraction of a second, give the
/// nanoseconds exactly (leaving out the extra second of a leap second).
pub proof fn ley_texto_fraccion(t: Hora)
    requires
        hora_valida(t),
    ensures
        ({
            let n: int = if t.nano >= 1_000_000_000 { t.nano - 1_000_000_000 } else { t.nano as int };
            let x = texto_fraccion(t);
            &&& n == 0 ==> x.len() == 0
            &&& n != 0 ==> x.len() > 1 && x[0] == '.'
            &&& n != 0 && n % 1_000_000 == 0 ==> x.len() == 4 && valor_decimal(x.drop_first()) * 1_000_000 == n
            &&& n % 1_000_000 != 0 && n % 1_000 == 0 ==> x.len() == 7 && valor_decimal(x.drop_first()) * 1_000 == n
            &&& n % 1_000 != 0 ==> x.len() == 10 && valor_decimal(x.drop_first()) == n
        }),
{
    let n: nat = if t.nano >= 1_000_000_000 { (t.nano - 1_000_000_000) as nat } else { t.nano as nat };
    let x = texto_fraccion(t);
    if n != 0 {
        if n % 1_000_000 == 0 {
            largo_decimal(n / 1_000_000);
            ley_con_ceros_se_lee(n / 1_000_000, 3);
            assert(x.drop_first() =~= con_ceros(n / 1_000_000, 3));
        } else if n % 1_000 == 0 {
            ley_con_ceros_se_lee(n / 1_000, 6);
            reveal_with_fuel(potencia_diez, 7);
            largo_de_menores(n / 1_000, 6);
            assert(x.drop_first() =~= con_ceros(n / 1_000, 6));
        } else {
            ley_con_ceros_se_lee(n, 9);
            reveal_with_fuel(potencia_diez, 10);
            largo_de_menores(n, 9);
            assert(x.drop_first() =~= con_ceros(n, 9));
        }
    }
}

proof fn largo_de_menores(n: nat, k: nat)
    requires
        k >= 1,
        n < potencia_diez(k),
    ensures
        decimal(n).len() <= k,
    decreases n,
{
    if n >= 10 {
        assert(potencia_diez(k) == 10 * potencia_diez((k - 1) as nat));
        if k == 1 {
            assert(potencia_diez(0) == 1);
        }
        largo_de_menores(n / 10, (k - 1) as nat);
    }
}

/// Ten to the power `k`.
pub open spec fn potencia_diez(k: nat) -> nat
    decreases k,
{
    if k == 0 { 1 } else { 10 * potencia_diez((k - 1) as nat) }
}

} // verus!
