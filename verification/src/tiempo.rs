//! Calendar dates and times of day, as plain values, and the calls into
//! `chrono` that read, parse, shift and print them.

use vstd::prelude::*;
use chrono::{Datelike, Timelike};
use crate::texto::{con_ceros, decimal};

verus! {

/// A calendar date of the proleptic Gregorian calendar.
#[derive(Clone, Copy, Debug, PartialEq, Eq, Structural)]
pub struct Fecha {
    pub anio: i32,
    pub mes: u32,
    pub dia: u32,
}

/// A time of day; `nano` reaches past one second only inside a leap second,
/// which is then kept as second 59 (as `chrono` does).
#[derive(Clone, Copy, Debug, PartialEq, Eq, Structural)]
pub struct Hora {
    pub hora: u32,
    pub minuto: u32,
    pub segundo: u32,
    pub nano: u32,
}

/// A local date and time of day.
#[derive(Clone, Copy, Debug, PartialEq, Eq, Structural)]
pub struct Momento {
    pub fecha: Fecha,
    pub hora: Hora,
}

/// The largest number of whole seconds that a `chrono` time delta can hold.
pub const SEGUNDOS_MAX: i64 = 9_223_372_036_854_775;

pub open spec fn es_bisiesto(anio: int) -> bool {
    (anio % 4 == 0 && anio % 100 != 0) || anio % 400 == 0
}

pub open spec fn dias_del_mes(anio: int, mes: int) -> int {
    if mes == 2 {
        if es_bisiesto(anio) { 29 } else { 28 }
    } else if mes == 4 || mes == 6 || mes == 9 || mes == 11 {
        30
    } else {
        31
    }
}

/// A date that `chrono` can hold: years -262143 to 262142, a real month and day.
pub open spec fn fecha_valida(f: Fecha) -> bool {
    &&& -262143 <= f.anio <= 262142
    &&& 1 <= f.mes <= 12
    &&& 1 <= f.dia <= dias_del_mes(f.anio as int, f.mes as int)
}

pub open spec fn hora_valida(t: Hora) -> bool {
    &&& t.hora < 24
    &&& t.minuto < 60
    &&& t.segundo < 60
    &&& t.nano < 2_000_000_000
    &&& t.nano >= 1_000_000_000 ==> t.segundo == 59
}

pub open spec fn momento_valido(m: Momento) -> bool {
    fecha_valida(m.fecha) && hora_valida(m.hora)
}

pub open spec fn fecha_de(t: (i32, u32, u32)) -> Fecha {
    Fecha { anio: t.0, mes: t.1, dia: t.2 }
}

pub open spec fn hora_de(t: (u32, u32, u32, u32)) -> Hora {
    Hora { hora: t.0, minuto: t.1, segundo: t.2, nano: t.3 }
}

/// `a` comes before `b` in the calendar.
pub open spec fn fecha_antes(a: Fecha, b: Fecha) -> bool {
    ||| a.anio < b.anio
    ||| a.anio == b.anio && a.mes < b.mes
    ||| a.anio == b.anio && a.mes == b.mes && a.dia < b.dia
}

/// `a` comes before `b` in the day.
pub open spec fn hora_antes(a: Hora, b: Hora) -> bool {
    ||| a.hora < b.hora
    ||| a.hora == b.hora && a.minuto < b.minuto
    ||| a.hora == b.hora && a.minuto == b.minuto && a.segundo < b.segundo
    ||| a.hora == b.hora && a.minuto == b.minuto && a.segundo == b.segundo && a.nano < b.nano
}

pub open spec fn segundos_del_dia(t: Hora) -> int {
    t.hora * 3600 + t.minuto * 60 + t.segundo
}

pub open spec fn hora_de_segundos(s: int, nano: int) -> Hora {
    Hora { hora: (s / 3600) as u32, minuto: ((s / 60) % 60) as u32, segundo: (s % 60) as u32, nano: nano as u32 }
}

/// The time of day `k` seconds after `t`, going round midnight; a leap second
/// is left as soon as any seconds are added or taken away.
pub open spec fn hora_mas_segundos(t: Hora, k: int) -> Hora {
    if t.nano >= 1_000_000_000 && k == 0 {
        t
    } else {
        let base = segundos_del_dia(t) + if t.nano >= 1_000_000_000 && k < 0 { 1int } else { 0int };
        let nano = if t.nano >= 1_000_000_000 { t.nano - 1_000_000_000 } else { t.nano as int };
        hora_de_segundos((base + k) % 86400, nano)
    }
}

/// A year as `%Y` prints it: four digits from 0 to 9999, a sign otherwise.
pub open spec fn texto_anio(anio: int) -> Seq<char> {
    if 0 <= anio <= 9999 {
        con_ceros(anio as nat, 4)
    } else if anio > 9999 {
        seq!['+'] + decimal(anio as nat)
    } else {
        seq!['-'] + con_ceros((-anio) as nat, 4)
    }
}

/// The date as `%Y-%m-%d`.
pub open spec fn texto_fecha(f: Fecha) -> Seq<char> {
    texto_anio(f.anio as int) + seq!['-'] + con_ceros(f.mes as nat, 2) + seq!['-'] + con_ceros(f.dia as nat, 2)
}

/// The second shown for `t`: 60 inside a leap second.
pub open spec fn segundo_mostrado(t: Hora) -> nat {
    if t.nano >= 1_000_000_000 { (t.segundo + 1) as nat } else { t.segundo as nat }
}

/// The time as `%H:%M:%S`.
pub open spec fn texto_hms(t: Hora) -> Seq<char> {
    con_ceros(t.hora as nat, 2) + seq![':'] + con_ceros(t.minuto as nat, 2) + seq![':'] + con_ceros(segundo_mostrado(t), 2)
}

/// The fraction of a second as the time's `Display` prints it: nothing, or
/// three, six or nine digits after a point.
pub open spec fn texto_fraccion(t: Hora) -> Seq<char> {
    let n: nat = if t.nano >= 1_000_000_000 { (t.nano - 1_000_000_000) as nat } else { t.nano as nat };
    if n == 0 {
        seq![]
    } else if n % 1_000_000 == 0 {
        seq!['.'] + con_ceros(n / 1_000_000, 3)
    } else if n % 1_000 == 0 {
        seq!['.'] + con_ceros(n / 1_000, 6)
    } else {
        seq!['.'] + con_ceros(n, 9)
    }
}

/// The time as its `Display` prints it.
pub open spec fn texto_hora(t: Hora) -> Seq<char> {
    texto_hms(t) + texto_fraccion(t)
}

/// What `chrono` reads from `texto` with the format `%Y-%m-%d`, as (year, month, day).
pub uninterp spec fn fecha_leida(texto: Seq<char>) -> Option<(i32, u32, u32)>;

/// What `chrono` reads from `texto` with the format `%H:%M:%S`, as
/// (hour, minute, second, nanosecond).
pub uninterp spec fn hora_leida(texto: Seq<char>) -> Option<(u32, u32, u32, u32)>;

/// The current local date and time, from `chrono::Local::now`, read through
/// `date_naive` and `time`. Nothing is said of which moment it is; what is
/// stated is only that `chrono` never holds an invalid date or time of day.
/// `chrono` panics here if the system clock is set before 1970, which no
/// argument can rule out.
#[verifier::external_body]
pub(crate) fn ahora_local() -> (m: Momento)
    ensures
        momento_valido(m),
{
    let ahora = chrono::Local::now();
    let (f, t) = (ahora.date_naive(), ahora.time());
    Momento {
        fecha: Fecha { anio: f.year(), mes: f.month(), dia: f.day() },
        hora: Hora { hora: t.hour(), minuto: t.minute(), segundo: t.second(), nano: t.nanosecond() },
    }
}

/// The current UTC date and time, from `chrono::Utc::now`, read through
/// `date_naive` and `time`. As for `ahora_local`, only validity is stated.
/// `chrono` panics here if the system clock is set before 1970, which no
/// argument can rule out.
#[verifier::external_body]
pub(crate) fn ahora_utc() -> (m: Momento)
    ensures
        momento_valido(m),
{
    let ahora = chrono::Utc::now();
    let (f, t) = (ahora.date_naive(), ahora.time());
    Momento {
        fecha: Fecha { anio: f.year(), mes: f.month(), dia: f.day() },
        hora: Hora { hora: t.hour(), minuto: t.minute(), segundo: t.second(), nano: t.nanosecond() },
    }
}

/// `chrono::NaiveDate::parse_from_str(texto, "%Y-%m-%d")`, the date taken apart.
/// The result is named `fecha_leida`; a date that `chrono` hands back is valid.
#[verifier::external_body]
pub(crate) fn leer_fecha(texto: &str) -> (r: Option<(i32, u32, u32)>)
    ensures
        r == fecha_leida(texto@),
        r matches Some(t) ==> fecha_valida(fecha_de(t)),
{
    match chrono::NaiveDate::parse_from_str(texto, "%Y-%m-%d") {
        Ok(f) => Some((f.year(), f.month(), f.day())),
        Err(_) => None,
    }
}

/// `chrono::NaiveTime::parse_from_str(texto, "%H:%M:%S")`, the time taken apart.
/// The result is named `hora_leida`; a time that `chrono` hands back is valid.
#[verifier::external_body]
pub(crate) fn leer_hora(texto: &str) -> (r: Option<(u32, u32, u32, u32)>)
    ensures
        r == hora_leida(texto@),
        r matches Some(t) ==> hora_valida(hora_de(t)),
{
    match chrono::NaiveTime::parse_from_str(texto, "%H:%M:%S") {
        Ok(t) => Some((t.hour(), t.minute(), t.second(), t.nanosecond())),
        Err(_) => None,
    }
}

/// `NaiveTime + TimeDelta::seconds(segundos)`: the addition wraps round midnight
/// and leaves a leap second as `NaiveTime::overflowing_add_signed` does.
/// `TimeDelta::seconds` panics outside `SEGUNDOS_MAX`, which `requires` leaves out.
#[verifier::external_body]
pub(crate) fn sumar_segundos(t: Hora, segundos: i64) -> (r: Hora)
    requires
        hora_valida(t),
        -SEGUNDOS_MAX <= segundos <= SEGUNDOS_MAX,
    ensures
        r == hora_mas_segundos(t, segundos as int),
{
    let base = chrono::NaiveTime::from_hms_nano_opt(t.hora, t.minuto, t.segundo, t.nano).unwrap();
    let r = base + chrono::TimeDelta::seconds(segundos);
    Hora { hora: r.hour(), minuto: r.minute(), segundo: r.second(), nano: r.nanosecond() }
}

/// `NaiveTime::format("%H:%M:%S").to_string()`: two digits each, the second
/// shown as 60 inside a leap second.
#[verifier::external_body]
pub(crate) fn formatear_hora(t: Hora) -> (r: String)
    requires
        hora_valida(t),
    ensures
        r@ == texto_hms(t),
{
    chrono::NaiveTime::from_hms_nano_opt(t.hora, t.minuto, t.segundo, t.nano).unwrap().format("%H:%M:%S").to_string()
}

/// `NaiveTime::to_string()`: `%H:%M:%S` and, when there is one, the fraction of
/// the second with three, six or nine digits.
#[verifier::external_body]
pub(crate) fn mostrar_hora(t: Hora) -> (r: String)
    requires
        hora_valida(t),
    ensures
        r@ == texto_hora(t),
{
    chrono::NaiveTime::from_hms_nano_opt(t.hora, t.minuto, t.segundo, t.nano).unwrap().to_string()
}

/// `NaiveDate::format("%Y-%m-%d").to_string()`.
#[verifier::external_body]
pub(crate) fn formatear_fecha(f: Fecha) -> (r: String)
    requires
        fecha_valida(f),
    ensures
        r@ == texto_fecha(f),
{
    chrono::NaiveDate::from_ymd_opt(f.anio, f.mes, f.dia).unwrap().format("%Y-%m-%d").to_string()
}

/// `NaiveDate::to_string()`, which prints as `%Y-%m-%d` does.
#[verifier::external_body]
pub(crate) fn mostrar_fecha(f: Fecha) -> (r: String)
    requires
        fecha_valida(f),
    ensures
        r@ == texto_fecha(f),
{
    chrono::NaiveDate::from_ymd_opt(f.anio, f.mes, f.dia).unwrap().to_string()
}

} // verus!
