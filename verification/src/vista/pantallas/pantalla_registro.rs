//! Pantalla de registro: usuario, contraseña y el resultado del último intento.
use vstd::prelude::*;

use crate::aplicacion::EventoAplicacion;
use crate::texto::{caracteres, recortar, recortar_caracteres, texto_desde};
use crate::vista::pantallas::pantalla::{AccionPantalla, Pantalla};

verus! {

/// Pantalla de registro.
#[derive(Default)]
pub struct PantallaRegistro {
    usuario: String,
    contrasenia: String,
    registro_exitoso: bool,
    error_registro: Option<String>,
}

/// Lo que recuerda una [`PantallaRegistro`].
pub struct PantallaRegistroV {
    pub usuario: Seq<char>,
    pub contrasenia: Seq<char>,
    pub registro_exitoso: bool,
    pub error_registro: Option<Seq<char>>,
}

impl View for PantallaRegistro {
    type V = PantallaRegistroV;

    closed spec fn view(&self) -> PantallaRegistroV {
        PantallaRegistroV {
            usuario: self.usuario@,
            contrasenia: self.contrasenia@,
            registro_exitoso: self.registro_exitoso,
            error_registro: match self.error_registro {
                Some(e) => Some(e@),
                None => None,
            },
        }
    }
}

/// Texto sin espacios en blanco al principio ni al final.
fn recortado(s: &String) -> (r: String)
    ensures
        r@ == recortar(s@),
{
    let v = caracteres(s.as_str());
    let w = recortar_caracteres(v.as_slice());
    texto_desde(w.as_slice())
}

impl PantallaRegistro {
    /// Guarda lo escrito en los campos de usuario y contraseña.
    pub fn escribir_datos(&mut self, usuario: String, contrasenia: String)
        ensures
            final(self)@.usuario == usuario@,
            final(self)@.contrasenia == contrasenia@,
            final(self)@.registro_exitoso == old(self)@.registro_exitoso,
            final(self)@.error_registro == old(self)@.error_registro,
    {
        self.usuario = usuario;
        self.contrasenia = contrasenia;
    }

    /// Si hay que mostrar el aviso de registro exitoso.
    pub fn registro_exitoso(&self) -> (r: bool)
        ensures
            r == self@.registro_exitoso,
    {
        self.registro_exitoso
    }

    /// Si hay que mostrar el aviso de error de registro.
    pub fn hay_error_registro(&self) -> (r: bool)
        ensures
            r == self@.error_registro is Some,
    {
        self.error_registro.is_some()
    }

    /// Acción según los botones apretados. Registrarse, que prevalece, borra
    /// el resultado del intento anterior y pide registrar lo escrito sin
    /// espacios al principio ni al final; si no, volver.
    pub fn accion_botones(&mut self, registrarme: bool, volver: bool) -> (r: AccionPantalla)
        ensures
            final(self)@.usuario == old(self)@.usuario,
            final(self)@.contrasenia == old(self)@.contrasenia,
            registrarme ==> {
                &&& r matches AccionPantalla::IntentarRegistro(u, p)
                &&& u@ == recortar(old(self)@.usuario)
                &&& p@ == recortar(old(self)@.contrasenia)
                &&& !final(self)@.registro_exitoso
                &&& final(self)@.error_registro is None
            },
            !registrarme ==> {
                &&& final(self)@.registro_exitoso == old(self)@.registro_exitoso
                &&& final(self)@.error_registro == old(self)@.error_registro
                &&& volver ==> r == AccionPantalla::Volver
                &&& !volver ==> r == AccionPantalla::Ninguna
            },
    {
        let usuario = recortado(&self.usuario);
        let pass = recortado(&self.contrasenia);
        if registrarme {
            self.registro_exitoso = false;
            self.error_registro = None;
            return AccionPantalla::IntentarRegistro(usuario, pass);
        }
        if volver {
            return AccionPantalla::Volver;
        }
        AccionPantalla::Ninguna
    }
}

impl Pantalla for PantallaRegistro {
    /// Un registro exitoso activa su aviso; un error de registro se guarda.
    fn escuchar_evento(&mut self, evento: EventoAplicacion)
        ensures
            final(self)@.usuario == old(self)@.usuario,
            final(self)@.contrasenia == old(self)@.contrasenia,
            match evento {
                EventoAplicacion::RegistroExitoso => {
                    &&& final(self)@.registro_exitoso
                    &&& final(self)@.error_registro == old(self)@.error_registro
                },
                EventoAplicacion::ErrorDeRegistro(e) => {
                    &&& final(self)@.registro_exitoso == old(self)@.registro_exitoso
                    &&& final(self)@.error_registro == Some(e@)
                },
                _ => {
                    &&& final(self)@.registro_exitoso == old(self)@.registro_exitoso
                    &&& final(self)@.error_registro == old(self)@.error_registro
                },
            },
    {
        match evento {
            EventoAplicacion::RegistroExitoso => {
                self.registro_exitoso = true;
            },
            EventoAplicacion::ErrorDeRegistro(error_str) => {
                self.error_registro = Some(error_str);
            },
            _ => {},
        }
    }
}

} // verus!
