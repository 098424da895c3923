use faena::crear_sala::{
    establecer_fecha_predeterminada, establecer_hora_predeterminada, fecha_predeterminada_con,
    fecha_vigente, hora_predeterminada_con, hora_vigente, nueva_sala, preparar_sala,
    tras_envio_sala, validar_datos_sala_basica, validar_datos_sala_premium,
    validar_datos_sala_premium_en, verificar_date_inicio, verificar_time_inicio,
};
use faena::respuesta::AccionServidor;
use faena::tiempo::{Fecha, Hora, Momento};

fn momento(anio: i32, mes: u32, dia: u32, hora: u32, minuto: u32, segundo: u32, nano: u32) -> Momento {
    Momento { fecha: Fecha { anio, mes, dia }, hora: Hora { hora, minuto, segundo, nano } }
}

#[test]
fn sala_basica() {
    assert_eq!(validar_datos_sala_basica("Consejo", "Votación anual", 10), Ok(()));
    assert_eq!(validar_datos_sala_basica("   ", "Votación", 10), Err("No puede haber campos vacíos"));
    assert_eq!(validar_datos_sala_basica("Consejo", "\u{3000}\t", 10), Err("No puede haber campos vacíos"));
    assert_eq!(validar_datos_sala_basica("Consejo", "x", 0), Err("Numero de participantes debe de ser entre 1 y 100"));
    assert_eq!(validar_datos_sala_basica("Consejo", "x", 101), Err("Numero de participantes debe de ser entre 1 y 100"));
    assert_eq!(validar_datos_sala_basica("Consejo", "x", 1), Ok(()));
    assert_eq!(validar_datos_sala_basica("Consejo", "x", 100), Ok(()));
}

#[test]
fn fechas_de_inicio() {
    let hoy = momento(2024, 3, 15, 10, 0, 0, 0);
    assert!(verificar_date_inicio("2024-03-15", hoy));
    assert!(verificar_date_inicio("2024-03-16", hoy));
    assert!(verificar_date_inicio("2025-01-01", hoy));
    assert!(!verificar_date_inicio("2024-03-14", hoy));
    assert!(!verificar_date_inicio("2023-12-31", hoy));
    assert!(!verificar_date_inicio("15/03/2024", hoy));
    assert!(!verificar_date_inicio("", hoy));
    assert!(!verificar_date_inicio("2024-02-30", hoy));
    assert!(fecha_vigente(Some((2024, 4, 1)), hoy.fecha));
    assert!(!fecha_vigente(Some((2024, 3, 14)), hoy.fecha));
    assert!(!fecha_vigente(None, hoy.fecha));
}

#[test]
fn horas_de_inicio() {
    let hoy = momento(2024, 3, 15, 10, 0, 0, 500);
    assert!(verificar_time_inicio("10:00:01", "2024-03-15", hoy));
    assert!(!verificar_time_inicio("10:00:00", "2024-03-15", hoy));
    assert!(!verificar_time_inicio("09:59:59", "2024-03-15", hoy));
    assert!(verificar_time_inicio("09:00:00", "2024-03-16", hoy));
    // a past date is not this check's concern
    assert!(verificar_time_inicio("09:00:00", "2024-03-14", hoy));
    assert!(!verificar_time_inicio("9 en punto", "2024-03-16", hoy));
    assert!(!verificar_time_inicio("10:00:01", "mañana", hoy));
    assert!(hora_vigente(Some((10, 0, 0, 500)), Some((2024, 3, 15)), hoy));
    assert!(!hora_vigente(Some((10, 0, 0, 499)), Some((2024, 3, 15)), hoy));
    assert!(!hora_vigente(Some((10, 0, 0, 0)), None, hoy));
}

#[test]
fn sala_premium() {
    let ahora = momento(2024, 3, 15, 10, 0, 0, 0);
    let v = |n: &str, d: &str, p: i32, f: &str, h: &str, dur: i32, rec: bool| {
        validar_datos_sala_premium_en(n, d, p, f, h, dur, rec, ahora)
    };
    assert_eq!(v("Sala", "Desc", 500, "2024-03-15", "11:00:00", 2, false), Ok(()));
    assert_eq!(v("", "Desc", 500, "2024-03-15", "11:00:00", 2, false), Err("No puede haber campos vacios"));
    // only empty, not blank, is refused here
    assert_eq!(v(" ", "Desc", 500, "2024-03-15", "11:00:00", 2, false), Ok(()));
    assert_eq!(v("Sala", "Desc", 1001, "2024-03-15", "11:00:00", 2, false), Err("Numero de participantes debe de ser entre 1 y 1000"));
    assert_eq!(v("Sala", "Desc", 0, "2024-03-15", "11:00:00", 2, false), Err("Numero de participantes debe de ser entre 1 y 1000"));
    assert_eq!(v("Sala", "Desc", 5, "2024-03-14", "11:00:00", 2, false), Err("La fecha de inicio no puede ser pasada"));
    assert_eq!(v("Sala", "Desc", 5, "2024-03-15", "09:00:00", 2, false), Err("La hora de inicio no puede ser pasada"));
    assert_eq!(v("Sala", "Desc", 5, "2024-03-15", "nunca", 2, false), Err("La hora de inicio no puede ser pasada"));
    assert_eq!(v("Sala", "Desc", 5, "2024-03-14", "09:00:00", 2, true), Ok(()));
}

#[test]
fn sala_premium_ahora() {
    assert_eq!(validar_datos_sala_premium("Sala", "Desc", 5, "", "", 2, true), Ok(()));
    assert_eq!(validar_datos_sala_premium("Sala", "Desc", 5, "2000-01-01", "00:00:00", 2, false), Err("La fecha de inicio no puede ser pasada"));
    assert_eq!(validar_datos_sala_premium("Sala", "Desc", 5, "9999-12-31", "00:00:00", 2, false), Ok(()));
}

#[test]
fn ninguna_duracion_es_rechazada() {
    let ahora = momento(2024, 3, 15, 10, 0, 0, 0);
    for dur in [-5, 0, 1, 24, 25, 1000, i32::MIN, i32::MAX] {
        assert_eq!(validar_datos_sala_premium_en("Sala", "Desc", 5, "2024-03-16", "08:00:00", dur, false, ahora), Ok(()));
    }
}

#[test]
fn sala_recurrente_sin_horario() {
    let a = momento(2024, 3, 15, 10, 0, 0, 0);
    let b = momento(2030, 1, 1, 0, 0, 0, 0);
    assert_eq!(
        validar_datos_sala_premium_en("Sala", "Desc", 5, "ayer", "antes", 3, true, a),
        validar_datos_sala_premium_en("Sala", "Desc", 5, "2020-01-01", "00:00:00", 99, true, b)
    );
}

#[test]
fn hora_por_defecto() {
    assert_eq!(hora_predeterminada_con("", Hora { hora: 9, minuto: 5, segundo: 7, nano: 123 }), "09:06:07");
    assert_eq!(hora_predeterminada_con("", Hora { hora: 23, minuto: 59, segundo: 30, nano: 0 }), "00:00:30");
    // a leap second is left when the minute is added
    assert_eq!(hora_predeterminada_con("", Hora { hora: 23, minuto: 59, segundo: 59, nano: 1_500_000_000 }), "00:00:59");
    assert_eq!(hora_predeterminada_con("12:00:00", Hora { hora: 1, minuto: 0, segundo: 0, nano: 0 }), "12:00:00");
    assert_eq!(establecer_hora_predeterminada("08:30:00"), "08:30:00");
    let h = establecer_hora_predeterminada("");
    assert_eq!(h.chars().count(), 8);
    assert_eq!(&h[2..3], ":");
}

#[test]
fn hora_por_defecto_estable() {
    let primera = hora_predeterminada_con("", Hora { hora: 7, minuto: 0, segundo: 0, nano: 0 });
    let segunda = hora_predeterminada_con(&primera, Hora { hora: 20, minuto: 0, segundo: 0, nano: 0 });
    assert_eq!(primera, segunda);
}

#[test]
fn fecha_por_defecto() {
    assert_eq!(fecha_predeterminada_con("", Fecha { anio: 2024, mes: 3, dia: 5 }), "2024-03-05");
    assert_eq!(fecha_predeterminada_con("", Fecha { anio: 7, mes: 11, dia: 30 }), "0007-11-30");
    assert_eq!(fecha_predeterminada_con("", Fecha { anio: 12345, mes: 1, dia: 1 }), "+12345-01-01");
    assert_eq!(fecha_predeterminada_con("", Fecha { anio: -44, mes: 3, dia: 15 }), "-0044-03-15");
    assert_eq!(fecha_predeterminada_con("mañana", Fecha { anio: 2024, mes: 3, dia: 5 }), "mañana");
    assert_eq!(establecer_fecha_predeterminada("2024-01-01"), "2024-01-01");
    let f = establecer_fecha_predeterminada("");
    assert_eq!(f.len(), 10);
    let g = fecha_predeterminada_con(&f, Fecha { anio: 1999, mes: 1, dia: 1 });
    assert_eq!(f, g);
}

#[test]
fn sala_construida() {
    let s = nueva_sala("Sala".to_string(), "Desc".to_string(), 20, true, false, false, "2025-05-01", "10:00:00", 2, 7);
    assert_eq!(s.nombre, "Sala");
    assert_eq!(s.fecha_inicio, Some(Fecha { anio: 2025, mes: 5, dia: 1 }));
    assert_eq!(s.hora_inicio, Some(Hora { hora: 10, minuto: 0, segundo: 20, nano: 0 }));
    assert_eq!(s.hora_cierre, Some(Hora { hora: 12, minuto: 0, segundo: 0, nano: 0 }));
    assert_eq!(s.codigo_acceso, Some(String::new()));
    assert_eq!(s.filtro_dominio, Some(false));
    assert_eq!(s.activa, Some(true));
    assert_eq!(s.creador_id, 7);
    assert!(s.privada);
    // closing wraps round midnight
    let t = nueva_sala("S".to_string(), "D".to_string(), 2, false, true, false, "2025-05-01", "23:30:00", 1, 1);
    assert_eq!(t.hora_cierre, Some(Hora { hora: 0, minuto: 30, segundo: 0, nano: 0 }));
    assert_eq!(t.hora_inicio, Some(Hora { hora: 23, minuto: 30, segundo: 20, nano: 0 }));
    // a recurring room takes no times, whatever the texts hold
    let r = nueva_sala("S".to_string(), "D".to_string(), 2, false, false, true, "x", "y", i64::MAX, 1);
    assert_eq!(r.fecha_inicio, None);
    assert_eq!(r.hora_inicio, None);
    assert_eq!(r.hora_cierre, None);
}

#[test]
fn cierre_tras_apertura() {
    let s = nueva_sala("S".to_string(), "D".to_string(), 2, false, false, false, "2025-05-01", "22:15:40", 5, 1);
    // closing is opening shifted by 5 hours less 20 seconds
    assert_eq!(s.hora_inicio, Some(Hora { hora: 22, minuto: 16, segundo: 0, nano: 0 }));
    assert_eq!(s.hora_cierre, Some(Hora { hora: 3, minuto: 15, segundo: 40, nano: 0 }));
}

#[test]
fn sala_que_no_se_puede_construir() {
    let p = |f: &str, h: &str, dur: i64| {
        preparar_sala("S".to_string(), "D".to_string(), 2, false, false, false, f, h, dur, 1).is_some()
    };
    assert!(p("2025-05-01", "10:00:00", 1));
    assert!(!p("2025-05-01", "10:00", 1));
    assert!(!p("01-05-2025", "10:00:00", 1));
    assert!(!p("2025-05-01", "10:00:00", 2_562_047_788_016));
    assert!(p("2025-05-01", "10:00:00", 2_562_047_788_015));
    assert!(p("2025-05-01", "10:00:00", -2_562_047_788_015));
    assert!(!p("2025-05-01", "10:00:00", i64::MIN));
    assert!(preparar_sala("S".to_string(), "D".to_string(), 2, false, false, true, "", "", i64::MIN, 1).is_some());
}

#[test]
fn respuesta_a_la_sala() {
    assert!(matches!(tras_envio_sala(Ok(200)), AccionServidor::SalaCreada));
    assert!(matches!(tras_envio_sala(Ok(201)), AccionServidor::Nada));
    assert!(matches!(tras_envio_sala(Ok(500)), AccionServidor::Nada));
    match tras_envio_sala(Err("sin red".to_string())) {
        AccionServidor::MostrarError(m) => assert_eq!(m, "sin red"),
        otra => panic!("{:?}", otra),
    }
}
