//! Errores de la sesión RTP.
use vstd::prelude::*;

verus! {

/// Errores de un socket UDP.
#[derive(Debug, Clone, Copy, PartialEq, Eq, Structural)]
pub enum ErrorSocketUDP {
    ErrorRecibiendoDatos,
    ErrorEnviandoDatos,
    ErrorClonarSocketUDP,
}

/// Errores al crear o sostener una sesión RTP.
#[derive(Debug, Clone, Copy, PartialEq, Eq, Structural)]
pub enum ErrorSesion {
    ComunicacionRTP,
    ComunicacionRTCP,
    ErrorCreandoSesion,
}

/// Descripción de un [`ErrorSesion`].
pub open spec fn texto_error_sesion(e: ErrorSesion) -> Seq<char> {
    match e {
        ErrorSesion::ComunicacionRTCP => "Error en comunicacion RTCP"@,
        ErrorSesion::ComunicacionRTP => "Error en comunicacion RTP"@,
        ErrorSesion::ErrorCreandoSesion => "Error creando sesion"@,
    }
}

impl ErrorSesion {
    /// Descripción del error.
    pub fn a_texto(&self) -> (r: String)
        ensures
            r@ == texto_error_sesion(*self),
    {
        match self {
            ErrorSesion::ComunicacionRTCP => "Error en comunicacion RTCP".to_owned(),
            ErrorSesion::ComunicacionRTP => "Error en comunicacion RTP".to_owned(),
            ErrorSesion::ErrorCreandoSesion => "Error creando sesion".to_owned(),
        }
    }
}

/// Errores de la comunicación RTP.
#[derive(Debug, Clone, Copy, PartialEq, Eq, Structural)]
pub enum ErrorComunicacionRTP {
    ErrorIniciandoConexion,
    ErrorObtenerLock,
    ErrorEscucharChannel,
    ErrorEnviarChannel,
    ErrorEstablecerTimestamp,
    ErrorEnvioSocketUDP,
    ErrorRecibirSocketUDP,
    ErrorSerializarAPaquete,
    ErrorSRTPProtegiendo,
    ErrorSRTPVerificando,
    ErrorEncodeandoFrame,
    ErrorEnviandoAudio,
    ErrorRecibiendoAudio,
}

/// Mensaje de un [`ErrorComunicacionRTP`].
pub open spec fn texto_error_rtp(e: ErrorComunicacionRTP) -> Seq<char> {
    match e {
        ErrorComunicacionRTP::ErrorIniciandoConexion => "ERROR: Fallo al inicializar la conexion RTP."@,
        ErrorComunicacionRTP::ErrorObtenerLock => "ERROR: Al obtener el lock."@,
        ErrorComunicacionRTP::ErrorEscucharChannel => "ERROR: Fallo al recibir informacion de un channel."@,
        ErrorComunicacionRTP::ErrorEnviarChannel => "ERROR: Fallo al enviar informacion de un channel."@,
        ErrorComunicacionRTP::ErrorEstablecerTimestamp => "ERROR: No fue posible establecer un timestamp para la creacion de un paquete RTP."@,
        ErrorComunicacionRTP::ErrorEnvioSocketUDP => "ERROR: Fallo al enviar informacion por medio de un SocketUDP."@,
        ErrorComunicacionRTP::ErrorRecibirSocketUDP => "ERROR: Fallo al recibir informacion por medio de un SocketUDP."@,
        ErrorComunicacionRTP::ErrorSerializarAPaquete => "ERROR: No fue posible serializar un paquete RTP."@,
        ErrorComunicacionRTP::ErrorSRTPProtegiendo => "ERROR: Fallo al proteger y firmar un paquete RTP con SRTP."@,
        ErrorComunicacionRTP::ErrorSRTPVerificando => "ERROR: Fallo al verificar y desproteger un paquete RTP con SRTP."@,
        ErrorComunicacionRTP::ErrorEncodeandoFrame => "ERROR: Fallo al encodear un frame"@,
        ErrorComunicacionRTP::ErrorEnviandoAudio => "ERROR: Fallo al enviar audio"@,
        ErrorComunicacionRTP::ErrorRecibiendoAudio => "ERROR: Fallo al recibir audio"@,
    }
}

impl ErrorComunicacionRTP {
    /// Mensaje del error.
    pub fn a_texto(&self) -> (r: String)
        ensures
            r@ == texto_error_rtp(*self),
    {
        match self {
            ErrorComunicacionRTP::ErrorIniciandoConexion => "ERROR: Fallo al inicializar la conexion RTP.".to_owned(),
            ErrorComunicacionRTP::ErrorObtenerLock => "ERROR: Al obtener el lock.".to_owned(),
            ErrorComunicacionRTP::ErrorEscucharChannel => "ERROR: Fallo al recibir informacion de un channel.".to_owned(),
            ErrorComunicacionRTP::ErrorEnviarChannel => "ERROR: Fallo al enviar informacion de un channel.".to_owned(),
            ErrorComunicacionRTP::ErrorEstablecerTimestamp => "ERROR: No fue posible establecer un timestamp para la creacion de un paquete RTP.".to_owned(),
            ErrorComunicacionRTP::ErrorEnvioSocketUDP => "ERROR: Fallo al enviar informacion por medio de un SocketUDP.".to_owned(),
            ErrorComunicacionRTP::ErrorRecibirSocketUDP => "ERROR: Fallo al recibir informacion por medio de un SocketUDP.".to_owned(),
            ErrorComunicacionRTP::ErrorSerializarAPaquete => "ERROR: No fue posible serializar un paquete RTP.".to_owned(),
            ErrorComunicacionRTP::ErrorSRTPProtegiendo => "ERROR: Fallo al proteger y firmar un paquete RTP con SRTP.".to_owned(),
            ErrorComunicacionRTP::ErrorSRTPVerificando => "ERROR: Fallo al verificar y desproteger un paquete RTP con SRTP.".to_owned(),
            ErrorComunicacionRTP::ErrorEncodeandoFrame => "ERROR: Fallo al encodear un frame".to_owned(),
            ErrorComunicacionRTP::ErrorEnviandoAudio => "ERROR: Fallo al enviar audio".to_owned(),
            ErrorComunicacionRTP::ErrorRecibiendoAudio => "ERROR: Fallo al recibir audio".to_owned(),
        }
    }
}

/// Errores de la comunicación RTCP.
#[derive(Debug, Clone, Copy, PartialEq, Eq, Structural)]
pub enum ErrorComunicacionRTCP {
    ErrorIniciandoConexion,
    ErrorRecibiendoMensaje,
    PaqueteInvalidoRecibido,
    ErrorEnviandoMensaje,
    ErrorClonandoSocket,
    ErrorFinalizandoConexionConPeer,
}

/// Mensaje de un [`ErrorComunicacionRTCP`].
pub open spec fn texto_error_rtcp(e: ErrorComunicacionRTCP) -> Seq<char> {
    match e {
        ErrorComunicacionRTCP::ErrorClonandoSocket => "ERROR: Fallo al clonar un socket"@,
        ErrorComunicacionRTCP::ErrorIniciandoConexion => "ERROR: No se pudo iniciar el envio y recepción de mensajes RTCP"@,
        ErrorComunicacionRTCP::PaqueteInvalidoRecibido => "ERROR: Se recibio un paquete invalido"@,
        ErrorComunicacionRTCP::ErrorEnviandoMensaje => "ERROR: Fallo al enviar un mensaje RTCP"@,
        ErrorComunicacionRTCP::ErrorRecibiendoMensaje => "ERROR: Fallo al recibir un mensaje RTCP"@,
        ErrorComunicacionRTCP::ErrorFinalizandoConexionConPeer => "ERROR: Fallo al finalizar la llamada con otro peer"@,
    }
}

impl ErrorComunicacionRTCP {
    /// Mensaje del error.
    pub fn a_texto(&self) -> (r: String)
        ensures
            r@ == texto_error_rtcp(*self),
    {
        match self {
            ErrorComunicacionRTCP::ErrorClonandoSocket => "ERROR: Fallo al clonar un socket".to_owned(),
            ErrorComunicacionRTCP::ErrorIniciandoConexion => "ERROR: No se pudo iniciar el envio y recepción de mensajes RTCP".to_owned(),
            ErrorComunicacionRTCP::PaqueteInvalidoRecibido => "ERROR: Se recibio un paquete invalido".to_owned(),
            ErrorComunicacionRTCP::ErrorEnviandoMensaje => "ERROR: Fallo al enviar un mensaje RTCP".to_owned(),
            ErrorComunicacionRTCP::ErrorRecibiendoMensaje => "ERROR: Fallo al recibir un mensaje RTCP".to_owned(),
            ErrorComunicacionRTCP::ErrorFinalizandoConexionConPeer => "ERROR: Fallo al finalizar la llamada con otro peer".to_owned(),
        }
    }
}

} // verus!
