//! The records that travel between the application and the server.

use vstd::prelude::*;
use crate::tiempo::{Fecha, Hora, Momento};

verus! {

/// A user account as the server stores it.
#[derive(Debug, Default)]
pub struct Usuario {
    pub nombre: String,
    pub contrasena: String,
    pub email: String,
    pub premium: bool,
}

/// The account that a registration asks the server to create.
#[derive(Debug, Default)]
pub struct NuevoUsuario {
    pub nombre: String,
    pub contrasena: String,
    pub email: String,
}

/// What the server answers a successful login or registration with.
#[derive(Debug, Default)]
pub struct UsuarioGuardado {
    pub usuario: String,
    pub token: String,
}

/// A voting room that the client asks the server to create.
pub struct NuevaSalaVotacion {
    pub nombre: String,
    pub descripcion: String,
    pub recurrente: bool,
    pub privada: bool,
    pub filtro_dominio: Option<bool>,
    pub codigo_acceso: Option<String>,
    pub max_participantes: i32,
    pub fecha_inicio: Option<Fecha>,
    pub hora_inicio: Option<Hora>,
    pub hora_cierre: Option<Hora>,
    pub creador_id: i32,
    pub activa: Option<bool>,
}

/// The e-mail and password of a login.
pub struct Credenciales {
    pub email: String,
    pub contrasena: String,
}

/// The claims that a session token carries.
#[derive(Debug)]
pub struct Claims {
    pub sub: i32,
    pub email: String,
    pub exp: usize,
}

/// A voting room as the server stores it.
pub struct SalaVotacion {
    pub id: i32,
    pub nombre: String,
    pub descripcion: String,
    pub recurrente: bool,
    pub privada: bool,
    pub filtro_dominio: Option<bool>,
    pub codigo_acceso: Option<String>,
    pub max_participantes: i32,
    pub fecha_inicio: Option<Fecha>,
    pub hora_inicio: Option<Hora>,
    pub hora_cierre: Option<Hora>,
    pub creador_id: i32,
    pub creado_en: Momento,
    pub activa: bool,
}

/// A request to attach several filter values to a room.
#[derive(Clone)]
pub struct NuevoFiltroSalaRequest {
    pub sala_id: i32,
    pub valores: Vec<String>,
}

/// One filter value to attach to a room.
pub struct NuevoFiltroSala {
    pub sala_id: i32,
    pub valor: String,
}

/// A filter value attached to a room.
pub struct SalaFiltro {
    pub id: i32,
    pub sala_id: i32,
    pub valor: String,
}

/// All the filters of a room, with their number and kind.
pub struct FiltrosTodosResponse {
    pub filtros: Vec<SalaFiltro>,
    pub total: usize,
    pub tipo_filtro: String,
}

} // verus!
