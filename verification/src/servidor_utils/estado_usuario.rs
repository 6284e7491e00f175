//! Estado de un usuario dentro del servidor central.
use vstd::prelude::*;

verus! {

/// Estado de un usuario dentro del servidor central.
#[derive(Debug, Clone, Copy, PartialEq, Eq, Structural)]
pub enum EstadoUsuario {
    Disponible,
    Ocupado,
    Desconectado,
}

/// Código de cuatro letras con el que se muestra cada estado.
pub open spec fn codigo_estado(e: EstadoUsuario) -> Seq<char> {
    match e {
        EstadoUsuario::Disponible => "DISP"@,
        EstadoUsuario::Ocupado => "OCUP"@,
        EstadoUsuario::Desconectado => "DESC"@,
    }
}

impl EstadoUsuario {
    /// Código de cuatro letras del estado: `DISP`, `OCUP` o `DESC`.
    pub fn a_texto(&self) -> (r: String)
        ensures
            r@ == codigo_estado(*self),
    {
        match self {
            EstadoUsuario::Disponible => "DISP".to_owned(),
            EstadoUsuario::Ocupado => "OCUP".to_owned(),
            EstadoUsuario::Desconectado => "DESC".to_owned(),
        }
    }
}

} // verus!
