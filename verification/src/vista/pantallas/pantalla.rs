//! Acciones que resultan de lo que el usuario hace en una pantalla.
use vstd::prelude::*;

use std::path::PathBuf;

use crate::aplicacion::EventoAplicacion;

verus! {

/// Acciones que resultan de apretar algún botón (o ejecutar una acción) en una pantalla.
#[derive(Debug, PartialEq)]
pub enum AccionPantalla {
    /// No se apretó ningún botón.
    Ninguna,
    /// Ir a la pantalla de inicio de sesión.
    IrALogin,
    /// Ir a la pantalla de registro.
    IrARegistro,
    /// Iniciar sesión con el usuario y la contraseña dados.
    IntentarLogin(String, String),
    /// Volver a la pantalla de inicio.
    Volver,
    /// Registrarse con el usuario y la contraseña dados.
    IntentarRegistro(String, String),
    /// Llamar al usuario dado.
    Llamar(String),
    /// Atender la llamada entrante.
    AtenderLlamada,
    /// Rechazar la llamada entrante.
    RechazarLlamada,
    /// Pedir un nuevo frame de las cámaras de la videollamada.
    NuevoFrame,
    /// Cortar la llamada en curso.
    CortarLlamada,
    /// Actualizar la lista de usuarios.
    PedirUsuarios,
    /// Actualizar la lista de cámaras disponibles.
    PedirListaDeCamaras,
    /// Usar la cámara dada para las videollamadas.
    CambiarCamara(String),
    /// Cerrar la sesión.
    CerrarSesion,
    /// Mutear el micrófono.
    MutearMicrofono,
    /// Desmutear el micrófono.
    DesmutearMicrofono,
    /// Abrir el diálogo para elegir un archivo.
    AbrirDialogoArchivo,
    /// Enviar el archivo de la ruta dada.
    EnviarArchivo(PathBuf),
    /// Aceptar la oferta de archivo del otro usuario.
    AceptarArchivo,
    /// Rechazar la oferta de archivo del otro usuario.
    RechazarArchivo,
}

/// Pantalla de la interfaz: su estado cambia con los eventos de la aplicación.
pub trait Pantalla {
    /// Actualiza el estado de la pantalla según un evento de la aplicación.
    fn escuchar_evento(&mut self, evento: EventoAplicacion);
}

} // verus!
