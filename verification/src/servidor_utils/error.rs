//! Errores del servidor central.
use vstd::prelude::*;

verus! {

/// Errores que pueden generarse en el servidor central.
#[derive(Debug, Clone, Copy, PartialEq, Eq, Structural)]
pub enum ErrorServidorCentral {
    ErrorEnviandoMensajeUsuario,
    LeyendoArchivoUsuarios,
    ErrorPersistiendoUsuario,
    CreandoArchivoUsuarios,
}

} // verus!
