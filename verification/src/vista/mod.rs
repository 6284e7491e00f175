//! Vista de la aplicación: lo que cambia en ella con cada evento de la
//! aplicación y lo que decide cada pantalla. Dibujar las pantallas queda a
//! cargo de la interfaz gráfica.
use vstd::prelude::*;

pub mod pantallas;
pub mod vista_mock;

verus! {

/// Errores de una vista.
#[derive(Debug, Clone, PartialEq, Eq)]
pub enum ErrorVista {
    ErrorInterno,
    ErrorEnElObservador,
    ErrorAplicacion(String),
}

} // verus!
