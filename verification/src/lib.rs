//! Validation rules and decisions of the voting-room client library.

pub mod texto;
pub mod registrar;
pub mod tiempo;
pub mod modelo;
pub mod respuesta;
pub mod crear_sala;
pub mod login;
pub mod guardado_local;
pub mod p2pcon;
pub mod entrada;
pub mod leyes;
