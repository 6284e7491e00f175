//! Pantalla de inicio de sesión: usuario, contraseña y el aviso de error.
use vstd::prelude::*;

use crate::aplicacion::EventoAplicacion;
use crate::vista::pantallas::pantalla::{AccionPantalla, Pantalla};

verus! {

/// Pantalla de inicio de sesión.
#[derive(Default)]
pub struct PantallaLogin {
    usuario: String,
    contrasenia: String,
    error_iniciando_sesion: bool,
}

impl PantallaLogin {
    /// Usuario escrito.
    pub closed spec fn usuario_escrito(&self) -> Seq<char> {
        self.usuario@
    }

    /// Contraseña escrita.
    pub closed spec fn contrasenia_escrita(&self) -> Seq<char> {
        self.contrasenia@
    }

    /// Si se informó un error al iniciar sesión.
    pub closed spec fn con_error(&self) -> bool {
        self.error_iniciando_sesion
    }

    /// Guarda lo escrito en los campos de usuario y contraseña.
    pub fn escribir_datos(&mut self, usuario: String, contrasenia: String)
        ensures
            final(self).usuario_escrito() == usuario@,
            final(self).contrasenia_escrita() == contrasenia@,
            final(self).con_error() == old(self).con_error(),
    {
        self.usuario = usuario;
        self.contrasenia = contrasenia;
    }

    /// Si hay que mostrar el aviso de error al iniciar sesión.
    pub fn error_iniciando_sesion(&self) -> (r: bool)
        ensures
            r == self.con_error(),
    {
        self.error_iniciando_sesion
    }

    /// Acción según los botones apretados: iniciar sesión con lo escrito
    /// (sólo si el usuario y la contraseña no están vacíos) o volver, que
    /// prevalece.
    pub fn accion_botones(&self, iniciar_sesion: bool, volver: bool) -> (r: AccionPantalla)
        ensures
            volver ==> r == AccionPantalla::Volver,
            !volver && iniciar_sesion && self.usuario_escrito().len() > 0
                && self.contrasenia_escrita().len() > 0 ==> (r matches AccionPantalla::IntentarLogin(
                u,
                p,
            ) && u@ == self.usuario_escrito() && p@ == self.contrasenia_escrita()),
            !volver && !(iniciar_sesion && self.usuario_escrito().len() > 0
                && self.contrasenia_escrita().len() > 0) ==> r == AccionPantalla::Ninguna,
    {
        if volver {
            AccionPantalla::Volver
        } else if iniciar_sesion && !self.usuario.as_str().is_empty()
            && !self.contrasenia.as_str().is_empty() {
            AccionPantalla::IntentarLogin(self.usuario.clone(), self.contrasenia.clone())
        } else {
            AccionPantalla::Ninguna
        }
    }
}

impl Pantalla for PantallaLogin {
    /// Un error al iniciar sesión activa el aviso; nada más cambia.
    fn escuchar_evento(&mut self, evento: EventoAplicacion)
        ensures
            final(self).usuario_escrito() == old(self).usuario_escrito(),
            final(self).contrasenia_escrita() == old(self).contrasenia_escrita(),
            final(self).con_error() == (old(self).con_error()
                || evento is ErrorIniciandoSesion),
    {
        if let EventoAplicacion::ErrorIniciandoSesion(_) = evento {
            self.error_iniciando_sesion = true;
        }
    }
}

} // verus!
