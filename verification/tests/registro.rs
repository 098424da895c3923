use faena::registrar::{
    buscar_caracter_digito, buscar_caracter_especial, buscar_caracter_mayuscula,
    buscar_caracter_minuscula, correo_valido, tras_registro, validar_usuario,
};
use faena::respuesta::AccionServidor;

#[test]
fn especial_digito_mayuscula_minuscula() {
    assert!(buscar_caracter_especial("abc!"));
    assert!(buscar_caracter_especial("año"));
    assert!(!buscar_caracter_especial("Abc123"));
    assert!(buscar_caracter_digito("ab9"));
    assert!(!buscar_caracter_digito("abc"));
    assert!(buscar_caracter_mayuscula("abC"));
    assert!(!buscar_caracter_mayuscula("abcÑ"));
    assert!(buscar_caracter_minuscula("ABc"));
    assert!(!buscar_caracter_minuscula("ABC1!"));
    assert!(!buscar_caracter_especial(""));
}

#[test]
fn correos() {
    assert!(correo_valido("ana@correo.com"));
    assert!(correo_valido("@."));
    assert!(!correo_valido("ana.correo.com"));
    assert!(!correo_valido("ana@correo"));
    assert!(!correo_valido("a.b@correo"));
    assert!(!correo_valido("ana@correo@dominio.com"));
    assert!(correo_valido("ana@co.rreo@dominio"));
    assert!(!correo_valido(""));
}

#[test]
fn usuario_aceptado() {
    assert_eq!(validar_usuario("ana", "ana@correo.com", "Secreta1!", "Secreta1!"), Ok(()));
}

#[test]
fn usuario_rechazado_por_cada_regla() {
    assert_eq!(validar_usuario("", "ana@correo.com", "Secreta1!", "Secreta1!"), Err("No puede haber campos vacíos"));
    assert_eq!(validar_usuario("ana", "ana@correo.com", "Secreta1!", ""), Err("No puede haber campos vacíos"));
    assert_eq!(validar_usuario("ana", "ana@correo", "Secreta1!", "Secreta1!"), Err("El correo no es valido"));
    assert_eq!(validar_usuario("ana", "ana@correo.com", "Secreta1!", "Secreta2!"), Err("Las contraseñas no coinciden"));
    assert_eq!(validar_usuario("ana", "ana@correo.com", "Se1!", "Se1!"), Err("La contraseña necesita ser de minimo 8 caracteres"));
    assert_eq!(validar_usuario("ana", "ana@correo.com", "Secreta12", "Secreta12"), Err("La contraseña no tiene minimo 1 caracter especial"));
    assert_eq!(validar_usuario("ana", "ana@correo.com", "Secreta!!", "Secreta!!"), Err("La contraseña no tiene minimo 1 digito"));
    assert_eq!(validar_usuario("ana", "ana@correo.com", "secreta1!", "secreta1!"), Err("La contraseña no tiene minimo 1 mayuscula"));
    assert_eq!(validar_usuario("ana", "ana@correo.com", "SECRETA1!", "SECRETA1!"), Err("La contraseña no tiene minimo 1 minuscula"));
}

#[test]
fn longitud_en_caracteres_no_en_bytes() {
    // seven characters, more than eight bytes
    assert_eq!(validar_usuario("ana", "ana@correo.com", "Añoñ1!ñ", "Añoñ1!ñ"), Err("La contraseña necesita ser de minimo 8 caracteres"));
    assert_eq!(validar_usuario("ana", "ana@correo.com", "Añoñ1!ña", "Añoñ1!ña"), Ok(()));
}

#[test]
fn respuesta_registro() {
    assert!(matches!(tras_registro(Ok(201)), AccionServidor::LeerUsuario));
    match tras_registro(Ok(409)) {
        AccionServidor::MostrarError(m) => assert_eq!(m, "Correo electronico ya registrado"),
        otra => panic!("{:?}", otra),
    }
    assert!(matches!(tras_registro(Ok(500)), AccionServidor::LeerTexto));
    match tras_registro(Err("sin red".to_string())) {
        AccionServidor::MostrarError(m) => assert_eq!(m, "sin red"),
        otra => panic!("{:?}", otra),
    }
}
