//! What a login request is answered with.

use vstd::prelude::*;
use crate::respuesta::{es_exito, muestra, vista_accion, vista_respuesta, AccionServidor, Siguiente};

verus! {

pub open spec fn msg_demasiados_intentos() -> Seq<char> {
    "Se ha tratado de ingresar mas de 10 ocasiones a la cuenta. Espere 5 minutos."@
}

pub open spec fn msg_credenciales_invalidas() -> Seq<char> {
    "Credenciales no validas"@
}

/// The step that follows the answer `r` to a login.
pub open spec fn siguiente_login(r: Result<u16, Seq<char>>) -> (Siguiente, Seq<char>) {
    match r {
        Ok(estado) => if es_exito(estado) {
            (Siguiente::LeerUsuario, Seq::<char>::empty())
        } else if estado == 429 {
            (Siguiente::Mostrar, msg_demasiados_intentos())
        } else if estado == 401 {
            (Siguiente::Mostrar, msg_credenciales_invalidas())
        } else {
            (Siguiente::Nada, Seq::<char>::empty())
        },
        Err(e) => (Siguiente::Mostrar, e),
    }
}

/// What follows the server's answer to a login: on success the saved user is
/// read from the body; too many attempts (429) and wrong credentials (401)
/// are shown; other answers are let pass; a failed request shows its error.
pub fn tras_login(respuesta: Result<u16, String>) -> (r: AccionServidor)
    ensures
        vista_accion(r) == siguiente_login(vista_respuesta(respuesta)),
        match respuesta {
            Ok(estado) => if es_exito(estado) {
                r == AccionServidor::LeerUsuario
            } else if estado == 429 {
                muestra(r, msg_demasiados_intentos())
            } else if estado == 401 {
                muestra(r, msg_credenciales_invalidas())
            } else {
                r == AccionServidor::Nada
            },
            Err(e) => r == AccionServidor::MostrarError(e),
        },
{
    match respuesta {
        Ok(estado) => {
            if 200 <= estado && estado <= 299 {
                AccionServidor::LeerUsuario
            } else if estado == 429 {
                AccionServidor::MostrarError(
                    String::from_str("Se ha tratado de ingresar mas de 10 ocasiones a la cuenta. Espere 5 minutos."),
                )
            } else if estado == 401 {
                AccionServidor::MostrarError(String::from_str("Credenciales no validas"))
            } else {
                AccionServidor::Nada
            }
        },
        Err(e) => AccionServidor::MostrarError(e),
    }
}

} // verus!
