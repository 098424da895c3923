//! What the client does with the server's answer to a request.

use vstd::prelude::*;
use crate::modelo::UsuarioGuardado;

verus! {

/// The next step after an answer (or a failure) of the server.
#[derive(Debug)]
pub enum AccionServidor {
    /// Nothing is shown.
    Nada,
    /// The room was created: the screen is told so.
    SalaCreada,
    /// The body is read as the saved user.
    LeerUsuario,
    /// The body is read as text, and that text is shown as an error.
    LeerTexto,
    /// The user is stored on the device.
    GuardarUsuario(UsuarioGuardado),
    /// The message is shown as an error.
    MostrarError(String),
}

/// The kind of step that an `AccionServidor` is.
#[derive(Clone, Copy, Debug, PartialEq, Eq, Structural)]
pub enum Siguiente {
    Nada,
    SalaCreada,
    LeerUsuario,
    LeerTexto,
    Guardar,
    Mostrar,
}

/// An action by its kind and the message it shows (empty when it shows none).
pub open spec fn vista_accion(a: AccionServidor) -> (Siguiente, Seq<char>) {
    match a {
        AccionServidor::Nada => (Siguiente::Nada, Seq::<char>::empty()),
        AccionServidor::SalaCreada => (Siguiente::SalaCreada, Seq::<char>::empty()),
        AccionServidor::LeerUsuario => (Siguiente::LeerUsuario, Seq::<char>::empty()),
        AccionServidor::LeerTexto => (Siguiente::LeerTexto, Seq::<char>::empty()),
        AccionServidor::GuardarUsuario(_) => (Siguiente::Guardar, Seq::<char>::empty()),
        AccionServidor::MostrarError(m) => (Siguiente::Mostrar, m@),
    }
}

/// A server answer with its error taken by value.
pub open spec fn vista_respuesta(r: Result<u16, String>) -> Result<u16, Seq<char>> {
    match r {
        Ok(e) => Ok(e),
        Err(m) => Err(m@),
    }
}

/// `estado` is a success code (200 to 299).
pub open spec fn es_exito(estado: u16) -> bool {
    200 <= estado <= 299
}

/// `accion` shows exactly the message `texto`.
pub open spec fn muestra(accion: AccionServidor, texto: Seq<char>) -> bool {
    accion matches AccionServidor::MostrarError(m) && m@ == texto
}

/// What follows reading the saved user out of a successful answer: it is
/// stored, or the reading error is shown.
pub fn tras_leer_usuario(leido: Result<UsuarioGuardado, String>) -> (r: AccionServidor)
    ensures
        match leido {
            Ok(u) => r == AccionServidor::GuardarUsuario(u),
            Err(e) => r == AccionServidor::MostrarError(e),
        },
{
    match leido {
        Ok(u) => AccionServidor::GuardarUsuario(u),
        Err(e) => AccionServidor::MostrarError(e),
    }
}

} // verus!
