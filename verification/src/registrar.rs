//! Rules that a new account must meet before it is sent to the server.

use vstd::prelude::*;
use crate::texto::{
    alfanumerico_ascii, caracteres, digito_ascii, es_alfanumerico_ascii, es_digito_ascii,
    es_mayuscula_ascii, es_minuscula_ascii, mayuscula_ascii, minuscula_ascii, mismos_caracteres,
};

use crate::respuesta::{es_exito, muestra, vista_accion, vista_respuesta, AccionServidor, Siguiente};

verus! {

/// The password holds a character that is not an ASCII letter or digit.
pub open spec fn tiene_especial(s: Seq<char>) -> bool {
    exists|i: int| 0 <= i < s.len() && !es_alfanumerico_ascii(#[trigger] s[i])
}

/// The password holds an ASCII digit.
pub open spec fn tiene_digito(s: Seq<char>) -> bool {
    exists|i: int| 0 <= i < s.len() && es_digito_ascii(#[trigger] s[i])
}

/// The password holds an ASCII upper-case letter.
pub open spec fn tiene_mayuscula(s: Seq<char>) -> bool {
    exists|i: int| 0 <= i < s.len() && es_mayuscula_ascii(#[trigger] s[i])
}

/// The password holds an ASCII lower-case letter.
pub open spec fn tiene_minuscula(s: Seq<char>) -> bool {
    exists|i: int| 0 <= i < s.len() && es_minuscula_ascii(#[trigger] s[i])
}

/// `i` is the position of the first `'@'` of `s`.
pub open spec fn primera_arroba(s: Seq<char>, i: int) -> bool {
    &&& 0 <= i < s.len()
    &&& s[i] == '@'
    &&& forall|j: int| 0 <= j < i ==> s[j] != '@'
}

/// An address is accepted when it holds an `'@'` and the part between the first
/// `'@'` and the next one (or the end) holds a `'.'`.
pub open spec fn correo_aceptado(s: Seq<char>) -> bool {
    exists|i: int|
        #[trigger] primera_arroba(s, i) && exists|k: int|
            i < k < s.len() && s[k] == '.' && forall|j: int| i < j < k ==> s[j] != '@'
}

pub open spec fn msg_campos_vacios() -> Seq<char> {
    "No puede haber campos vacíos"@
}

pub open spec fn msg_correo_invalido() -> Seq<char> {
    "El correo no es valido"@
}

pub open spec fn msg_no_coinciden() -> Seq<char> {
    "Las contraseñas no coinciden"@
}

pub open spec fn msg_corta() -> Seq<char> {
    "La contraseña necesita ser de minimo 8 caracteres"@
}

pub open spec fn msg_sin_especial() -> Seq<char> {
    "La contraseña no tiene minimo 1 caracter especial"@
}

pub open spec fn msg_sin_digito() -> Seq<char> {
    "La contraseña no tiene minimo 1 digito"@
}

pub open spec fn msg_sin_mayuscula() -> Seq<char> {
    "La contraseña no tiene minimo 1 mayuscula"@
}

pub open spec fn msg_sin_minuscula() -> Seq<char> {
    "La contraseña no tiene minimo 1 minuscula"@
}

/// A validation result with its message taken by value.
pub open spec fn vista_resultado(r: Result<(), &str>) -> Result<(), Seq<char>> {
    match r {
        Ok(u) => Ok(u),
        Err(e) => Err(e@),
    }
}

/// What registering the account `(usuario, correo, pswd, confirmacion)` is answered:
/// the first rule it breaks, in this order, or `Ok`.
pub open spec fn resultado_usuario(
    usuario: Seq<char>,
    correo: Seq<char>,
    pswd: Seq<char>,
    confirmacion: Seq<char>,
) -> Result<(), Seq<char>> {
    if correo.len() == 0 || usuario.len() == 0 || pswd.len() == 0 || confirmacion.len() == 0 {
        Err(msg_campos_vacios())
    } else if !correo_aceptado(correo) {
        Err(msg_correo_invalido())
    } else if pswd != confirmacion {
        Err(msg_no_coinciden())
    } else if pswd.len() < 8 {
        Err(msg_corta())
    } else if !tiene_especial(pswd) {
        Err(msg_sin_especial())
    } else if !tiene_digito(pswd) {
        Err(msg_sin_digito())
    } else if !tiene_mayuscula(pswd) {
        Err(msg_sin_mayuscula())
    } else if !tiene_minuscula(pswd) {
        Err(msg_sin_minuscula())
    } else {
        Ok(())
    }
}

/// Whether the password holds a character that is not an ASCII letter or digit.
pub fn buscar_caracter_especial(password: &str) -> (r: bool)
    ensures
        r == tiene_especial(password@),
{
    let v = caracteres(password);
    let mut i: usize = 0;
    while i < v.len()
        invariant
            i <= v.len(),
            v@ == password@,
            forall|j: int| 0 <= j < i ==> es_alfanumerico_ascii(#[trigger] v@[j]),
        decreases v.len() - i,
    {
        if !alfanumerico_ascii(v[i]) {
            return true;
        }
        i = i + 1;
    }
    false
}

/// Whether the password holds an ASCII digit.
pub fn buscar_caracter_digito(password: &str) -> (r: bool)
    ensures
        r == tiene_digito(password@),
{
    let v = caracteres(password);
    let mut i: usize = 0;
    while i < v.len()
        invariant
            i <= v.len(),
            v@ == password@,
            forall|j: int| 0 <= j < i ==> !es_digito_ascii(#[trigger] v@[j]),
        decreases v.len() - i,
    {
        if digito_ascii(v[i]) {
            return true;
        }
        i = i + 1;
    }
    false
}

/// Whether the password holds an ASCII upper-case letter.
pub fn buscar_caracter_mayuscula(password: &str) -> (r: bool)
    ensures
        r == tiene_mayuscula(password@),
{
    let v = caracteres(password);
    let mut i: usize = 0;
    while i < v.len()
        invariant
            i <= v.len(),
            v@ == password@,
            forall|j: int| 0 <= j < i ==> !es_mayuscula_ascii(#[trigger] v@[j]),
        decreases v.len() - i,
    {
        if mayuscula_ascii(v[i]) {
            return true;
        }
        i = i + 1;
    }
    false
}

/// Whether the password holds an ASCII lower-case letter.
pub fn buscar_caracter_minuscula(password: &str) -> (r: bool)
    ensures
        r == tiene_minuscula(password@),
{
    let v = caracteres(password);
    let mut i: usize = 0;
    while i < v.len()
        invariant
            i <= v.len(),
            v@ == password@,
            forall|j: int| 0 <= j < i ==> !es_minuscula_ascii(#[trigger] v@[j]),
        decreases v.len() - i,
    {
        if minuscula_ascii(v[i]) {
            return true;
        }
        i = i + 1;
    }
    false
}

/// Whether `email` holds an `'@'` whose domain part (up to the next `'@'`) holds a `'.'`.
pub fn correo_valido(email: &str) -> (r: bool)
    ensures
        r == correo_aceptado(email@),
{
    let v = caracteres(email);
    let mut i: usize = 0;
    while i < v.len() && v[i] != '@'
        invariant
            i <= v.len(),
            v@ == email@,
            forall|j: int| 0 <= j < i ==> v@[j] != '@',
        decreases v.len() - i,
    {
        i = i + 1;
    }
    if i == v.len() {
        assert forall|a: int| !primera_arroba(email@, a) by {}
        return false;
    }
    assert(primera_arroba(email@, i as int));
    let mut k: usize = i + 1;
    while k < v.len() && v[k] != '@' && v[k] != '.'
        invariant
            i < k <= v.len(),
            v@ == email@,
            primera_arroba(email@, i as int),
            forall|j: int| i < j < k ==> v@[j] != '@' && v@[j] != '.',
        decreases v.len() - k,
    {
        k = k + 1;
    }
    if k < v.len() && v[k] == '.' {
        return true;
    }
    assert forall|a: int| #[trigger] primera_arroba(email@, a) implies !(exists|m: int|
        a < m < email@.len() && email@[m] == '.' && forall|j: int| a < j < m ==> email@[j] != '@') by {
        assert(a == i);
        if exists|m: int| a < m < email@.len() && email@[m] == '.' && forall|j: int| a < j < m ==> email@[j] != '@' {
            let m = choose|m: int| a < m < email@.len() && email@[m] == '.' && forall|j: int| a < j < m ==> email@[j] != '@';
            if m > k {
                assert(email@[k as int] == '@');
            }
        }
    }
    false
}

/// Checks the account a person asks to register; the first rule broken gives the
/// message, in the order of `resultado_usuario`.
pub fn validar_usuario(username: &str, correo: &str, pswd: &str, confirm_pswd: &str) -> (r: Result<(), &'static str>)
    ensures
        vista_resultado(r) == resultado_usuario(username@, correo@, pswd@, confirm_pswd@),
{
    if correo.is_empty() || username.is_empty() || pswd.is_empty() || confirm_pswd.is_empty() {
        Err("No puede haber campos vacíos")
    } else if !correo_valido(correo) {
        Err("El correo no es valido")
    } else if !mismos_caracteres(&caracteres(pswd), &caracteres(confirm_pswd)) {
        Err("Las contraseñas no coinciden")
    } else if caracteres(pswd).len() < 8 {
        Err("La contraseña necesita ser de minimo 8 caracteres")
    } else if !buscar_caracter_especial(pswd) {
        Err("La contraseña no tiene minimo 1 caracter especial")
    } else if !buscar_caracter_digito(pswd) {
        Err("La contraseña no tiene minimo 1 digito")
    } else if !buscar_caracter_mayuscula(pswd) {
        Err("La contraseña no tiene minimo 1 mayuscula")
    } else if !buscar_caracter_minuscula(pswd) {
        Err("La contraseña no tiene minimo 1 minuscula")
    } else {
        Ok(())
    }
}

pub open spec fn msg_correo_registrado() -> Seq<char> {
    "Correo electronico ya registrado"@
}

/// The step that follows the answer `r` to a registration.
pub open spec fn siguiente_registro(r: Result<u16, Seq<char>>) -> (Siguiente, Seq<char>) {
    match r {
        Ok(estado) => if es_exito(estado) {
            (Siguiente::LeerUsuario, Seq::<char>::empty())
        } else if estado == 409 {
            (Siguiente::Mostrar, msg_correo_registrado())
        } else {
            (Siguiente::LeerTexto, Seq::<char>::empty())
        },
        Err(e) => (Siguiente::Mostrar, e),
    }
}

/// What follows the server's answer to a registration: on success the saved
/// user is read from the body; an address already taken (409) is shown; the
/// body of any other answer is read and shown; a failed request shows its error.
pub fn tras_registro(respuesta: Result<u16, String>) -> (r: AccionServidor)
    ensures
        vista_accion(r) == siguiente_registro(vista_respuesta(respuesta)),
        match respuesta {
            Ok(estado) => if es_exito(estado) {
                r == AccionServidor::LeerUsuario
            } else if estado == 409 {
                muestra(r, msg_correo_registrado())
            } else {
                r == AccionServidor::LeerTexto
            },
            Err(e) => r == AccionServidor::MostrarError(e),
        },
{
    match respuesta {
        Ok(estado) => {
            if 200 <= estado && estado <= 299 {
                AccionServidor::LeerUsuario
            } else if estado == 409 {
                AccionServidor::MostrarError(String::from_str("Correo electronico ya registrado"))
            } else {
                AccionServidor::LeerTexto
            }
        },
        Err(e) => AccionServidor::MostrarError(e),
    }
}

} // verus!
