use faena::entrada::{
    preparar_login, preparar_registro, preparar_sala_basica, preparar_sala_basica_en,
    preparar_sala_premium, preparar_sala_premium_en,
};
use faena::tiempo::{Fecha, Hora};

#[test]
fn login() {
    let c = preparar_login("ana@correo.com".to_string(), "x".to_string()).unwrap();
    assert_eq!(c.email, "ana@correo.com");
    assert_eq!(c.contrasena, "x");
    assert_eq!(preparar_login("".to_string(), "x".to_string()).err(), Some("Correo o contraseña vacíos"));
    assert_eq!(preparar_login("a".to_string(), "".to_string()).err(), Some("Correo o contraseña vacíos"));
}

#[test]
fn registro() {
    let u = preparar_registro("ana".to_string(), "ana@correo.com".to_string(), "Secreta1!".to_string(), "Secreta1!".to_string()).unwrap();
    assert_eq!(u.nombre, "ana");
    assert_eq!(u.email, "ana@correo.com");
    assert_eq!(u.contrasena, "Secreta1!");
    assert_eq!(
        preparar_registro("ana".to_string(), "ana@correo.com".to_string(), "Secreta1!".to_string(), "otra".to_string()).err(),
        Some("Las contraseñas no coinciden")
    );
}

#[test]
fn sala_basica_desde_la_pantalla() {
    let h = Hora { hora: 8, minuto: 5, segundo: 9, nano: 120_000_000 };
    let f = Fecha { anio: 2025, mes: 6, dia: 1 };
    let p = preparar_sala_basica_en("Sala".to_string(), "Desc".to_string(), 10, "Privado", Ok(33), h, f);
    assert_eq!(p.avisos, vec!["33".to_string()]);
    let s = p.solicitud.unwrap();
    assert!(s.is_privada);
    assert!(!s.is_filtro_dominio);
    assert!(!s.is_recurrente);
    assert_eq!(s.date_inicio, "2025-06-01");
    assert_eq!(s.time_inicio, "08:05:09");
    assert_eq!(s.duracion_sala, 1);
    assert_eq!(s.id, 33);
    let q = preparar_sala_basica_en("Sala".to_string(), " ".to_string(), 10, "Publico", Err("JWT inválido: x".to_string()), h, f);
    assert_eq!(q.avisos, vec!["JWT inválido: x".to_string(), "No puede haber campos vacíos".to_string()]);
    assert!(q.solicitud.is_none());
    let r = preparar_sala_basica("Sala".to_string(), "Desc".to_string(), 10, "Publico", Err("e".to_string()));
    let s = r.solicitud.unwrap();
    assert_eq!(s.id, 0);
    assert!(!s.is_privada);
    assert_eq!(s.time_inicio.len(), 8);
}

#[test]
fn sala_premium_desde_la_pantalla() {
    let h = Hora { hora: 23, minuto: 59, segundo: 50, nano: 500_000_000 };
    let f = Fecha { anio: 2025, mes: 6, dia: 1 };
    let p = preparar_sala_premium_en("Sala".to_string(), "Desc".to_string(), 50, "Privado", "Dominios de Correos", Ok(4), h, f);
    assert!(p.avisos.is_empty());
    let s = p.solicitud.unwrap();
    assert!(s.is_privada);
    assert!(s.is_filtro_dominio);
    assert_eq!(s.time_inicio, "00:00:10.500");
    assert_eq!(s.date_inicio, "2025-06-01");
    assert_eq!(s.id, 4);
    let q = preparar_sala_premium_en("Sala".to_string(), "Desc".to_string(), 500, "Publico", "Ninguna", Err("e".to_string()), h, f);
    assert_eq!(q.avisos, vec!["Numero de participantes debe de ser entre 1 y 100".to_string()]);
    assert!(q.solicitud.is_none());
    let h2 = Hora { hora: 1, minuto: 2, segundo: 3, nano: 4_000 };
    let r = preparar_sala_premium_en("S".to_string(), "D".to_string(), 5, "x", "y", Ok(1), h2, f);
    assert_eq!(r.solicitud.unwrap().time_inicio, "01:02:23.000004");
    let t = preparar_sala_premium("S".to_string(), "D".to_string(), 5, "x", "y", Ok(1));
    assert!(t.solicitud.is_some());
}
