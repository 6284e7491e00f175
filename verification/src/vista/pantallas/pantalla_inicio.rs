//! Pantalla de inicio: logo y botones para iniciar sesión o registrarse.
use vstd::prelude::*;

use crate::aplicacion::EventoAplicacion;
use crate::vista::pantallas::pantalla::{AccionPantalla, Pantalla};

verus! {

/// Pantalla de inicio.
#[derive(Default)]
pub struct PantallaInicio {}

impl PantallaInicio {
    /// Acción según los botones apretados: ir a iniciar sesión o a
    /// registrarse (si se apretaron los dos, vale el último).
    pub fn accion_botones(&self, iniciar_sesion: bool, registrarme: bool) -> (r: AccionPantalla)
        ensures
            registrarme ==> r == AccionPantalla::IrARegistro,
            !registrarme && iniciar_sesion ==> r == AccionPantalla::IrALogin,
            !registrarme && !iniciar_sesion ==> r == AccionPantalla::Ninguna,
    {
        if registrarme {
            AccionPantalla::IrARegistro
        } else if iniciar_sesion {
            AccionPantalla::IrALogin
        } else {
            AccionPantalla::Ninguna
        }
    }
}

impl Pantalla for PantallaInicio {
    /// Esta pantalla no cambia con ningún evento.
    fn escuchar_evento(&mut self, _evento: EventoAplicacion) {
    }
}

} // verus!
