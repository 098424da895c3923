use faena::guardado_local::id_de_token;
use faena::login::tras_login;
use faena::modelo::{Claims, UsuarioGuardado};
use faena::respuesta::{tras_leer_usuario, AccionServidor};

#[test]
fn respuesta_login() {
    assert!(matches!(tras_login(Ok(200)), AccionServidor::LeerUsuario));
    assert!(matches!(tras_login(Ok(299)), AccionServidor::LeerUsuario));
    match tras_login(Ok(429)) {
        AccionServidor::MostrarError(m) => {
            assert_eq!(m, "Se ha tratado de ingresar mas de 10 ocasiones a la cuenta. Espere 5 minutos.")
        },
        otra => panic!("{:?}", otra),
    }
    match tras_login(Ok(401)) {
        AccionServidor::MostrarError(m) => assert_eq!(m, "Credenciales no validas"),
        otra => panic!("{:?}", otra),
    }
    assert!(matches!(tras_login(Ok(404)), AccionServidor::Nada));
    assert!(matches!(tras_login(Ok(300)), AccionServidor::Nada));
    match tras_login(Err("tiempo agotado".to_string())) {
        AccionServidor::MostrarError(m) => assert_eq!(m, "tiempo agotado"),
        otra => panic!("{:?}", otra),
    }
}

#[test]
fn usuario_leido() {
    let u = UsuarioGuardado { usuario: "ana".to_string(), token: "t".to_string() };
    match tras_leer_usuario(Ok(u)) {
        AccionServidor::GuardarUsuario(g) => {
            assert_eq!(g.usuario, "ana");
            assert_eq!(g.token, "t");
        },
        otra => panic!("{:?}", otra),
    }
    match tras_leer_usuario(Err("json".to_string())) {
        AccionServidor::MostrarError(m) => assert_eq!(m, "json"),
        otra => panic!("{:?}", otra),
    }
}

#[test]
fn id_del_token() {
    let c = Claims { sub: 42, email: "ana@correo.com".to_string(), exp: 10 };
    assert_eq!(id_de_token(Ok(c)), Ok(42));
    assert_eq!(id_de_token(Err("ExpiredSignature".to_string())), Err("JWT inválido: ExpiredSignature".to_string()));
}
