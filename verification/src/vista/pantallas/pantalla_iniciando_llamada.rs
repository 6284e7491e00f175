//! Pantalla de espera mientras se inicia una llamada.
use vstd::prelude::*;

use crate::aplicacion::EventoAplicacion;
use crate::vista::pantallas::pantalla::Pantalla;

verus! {

/// Pantalla de espera mientras se inicia una llamada: no tiene estado.
#[derive(Default)]
pub struct PantallaIniciandoLlamada {}

impl Pantalla for PantallaIniciandoLlamada {
    /// Esta pantalla no cambia con ningún evento.
    fn escuchar_evento(&mut self, _evento: EventoAplicacion) {
    }
}

} // verus!
