//! Eventos que la aplicación informa a la vista.
use vstd::prelude::*;

use std::path::PathBuf;

use crate::protocolos::pca::UsuarioPCA;
use crate::sesion_rtp::sesion::EstadisticasReceiver;

verus! {

/// Ruta de un archivo, tal como la da la biblioteca estándar.
#[verifier::external_type_specification]
#[verifier::external_body]
pub struct ExRutaArchivo(PathBuf);

/// Imagen de un frame: ancho y alto en píxeles y sus bytes RGBA, fila por fila.
#[derive(Debug, Clone, PartialEq)]
pub struct ImagenRGBA {
    pub ancho: usize,
    pub alto: usize,
    pub pixeles: Vec<u8>,
}

/// Eventos de la aplicación que actualizan la vista.
#[derive(Debug)]
pub enum EventoAplicacion {
    RegistroExitoso,
    SesionIniciada,
    UsuariosNuevos(Vec<UsuarioPCA>),
    ErrorDeRegistro(String),
    ErrorIniciandoSesion(String),
    RecibiendoLlamada(String),
    LlamadaIniciando,
    LlamadaRechazada,
    LlamadaFinalizada,
    EnviandoLlamada(String),
    ErrorCreandoLlamada(String),
    LlamadaExternaRechazada,
    LlamadaIniciada,
    NuevoFrame(ImagenRGBA),
    NuevoFrameLocal(ImagenRGBA),
    NuevaListaDeCamarasDisponibles(Vec<String>),
    NuevaCamaraEnUso(String),
    ErrorCerrandoSesion,
    SesionCerrada,
    MicrofonoMuteado,
    MicrofonoDesmuteado,
    NuevasEstadisticas(Box<EstadisticasReceiver>),
    RecibendoOfertaArchivo { nombre: String, tamanio: u64 },
    ArchivoAceptadoPorPeer,
    ArchivoRechazadoPorPeer,
    ArchivoRecibido { nombre: String, ruta: PathBuf },
}

} // verus!
