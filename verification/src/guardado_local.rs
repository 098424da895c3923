//! The user id carried by a session token.

use vstd::prelude::*;
use crate::modelo::Claims;

verus! {

pub open spec fn prefijo_jwt_invalido() -> Seq<char> {
    "JWT inválido: "@
}

/// The user id of a decoded token, or the decoding error behind the words
/// `JWT inválido: `.
pub fn id_de_token(decodificado: Result<Claims, String>) -> (r: Result<i32, String>)
    ensures
        match decodificado {
            Ok(c) => r == Ok::<i32, String>(c.sub),
            Err(e) => r matches Err(m) && m@ == prefijo_jwt_invalido() + e@,
        },
{
    match decodificado {
        Ok(claims) => Ok(claims.sub),
        Err(e) => {
            let mut m = String::from_str("JWT inválido: ");
            m.append(e.as_str());
            Err(m)
        },
    }
}

} // verus!
