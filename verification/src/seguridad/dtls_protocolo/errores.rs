//! Errores propios del protocolo DTLS.
use vstd::prelude::*;

use crate::texto::{agregar_texto, texto_desde};

verus! {

/// Errores que pueden ocurrir al manejar certificados, huellas y roles DTLS.
#[derive(Debug, Clone)]
pub enum ErrorDTLSProtocolo {
    ErrorGenerandoCertificado,
    ErrorFingerprintNoCoincide { esperado: String, recibido: String },
    ErrorFingerprintInvalida,
    ErrorFingerprintAlgoritmoNoSoportado,
    ErrorFingerprintRemotoInexistente,
    ErrorRolNoEstablecido,
    ErrorEnviandoMensaje,
    ErrorRecibiendoMensaje,
    ErrorCertificadoLocalNoDisponible,
    ErrorCertificadoRemotoNoDisponible,
    ErrorCertificadoRemotoInexistente,
    ErrorSetupInvalido,
    ErrorSetupInexistente,
    ErrorAnswererConActpass,
    ErrorCertificadoInvalido,
    ErrorHandshakeDTLS,
    ErrorSocketDTLS,
    ErrorRolIncorrecto,
    ErrorObteniendoSocketRtpParaDtls,
    ErrorObteniendoSocketRtcpParaDtls,
    ErrorStreamDTLS,
    ClavesSRTPNoDisponibles,
    ErrorIniciarPostDTLS,
}

/// Mensaje de un [`ErrorDTLSProtocolo`].
pub open spec fn texto_error_dtls(e: ErrorDTLSProtocolo) -> Seq<char> {
    match e {
        ErrorDTLSProtocolo::ErrorFingerprintNoCoincide { esperado, recibido } =>
            "ERROR: La fingerprint no coincide. Esperado: "@ + esperado@ + ", Recibido: "@
            + recibido@,
        ErrorDTLSProtocolo::ErrorGenerandoCertificado => "ERROR: No se pudo generar el certificado DTLS"@,
        ErrorDTLSProtocolo::ErrorFingerprintInvalida => "ERROR: La fingerprint es inválida"@,
        ErrorDTLSProtocolo::ErrorFingerprintAlgoritmoNoSoportado => "ERROR: El algoritmo de la fingerprint no es soportado"@,
        ErrorDTLSProtocolo::ErrorFingerprintRemotoInexistente => "ERROR: No se encontró la fingerprint remota en la descripción de sesión"@,
        ErrorDTLSProtocolo::ErrorRolNoEstablecido => "ERROR: El rol DTLS no ha sido establecido"@,
        ErrorDTLSProtocolo::ErrorEnviandoMensaje => "ERROR: Fallo al enviar mensaje DTLS"@,
        ErrorDTLSProtocolo::ErrorRecibiendoMensaje => "ERROR: Fallo al recibir mensaje DTLS"@,
        ErrorDTLSProtocolo::ErrorCertificadoLocalNoDisponible => "ERROR: El certificado local DTLS no está disponible"@,
        ErrorDTLSProtocolo::ErrorCertificadoRemotoNoDisponible => "ERROR: El certificado remoto DTLS no está disponible"@,
        ErrorDTLSProtocolo::ErrorSetupInvalido => "ERROR: El valor de setup DTLS es inválido"@,
        ErrorDTLSProtocolo::ErrorSetupInexistente => "ERROR: No se encontró el valor de setup DTLS en la descripción de sesión"@,
        ErrorDTLSProtocolo::ErrorAnswererConActpass => "ERROR: El answerer no puede tener el valor 'actpass' en setup DTLS"@,
        ErrorDTLSProtocolo::ErrorCertificadoInvalido => "ERROR: El certificado DTLS es inválido"@,
        ErrorDTLSProtocolo::ErrorHandshakeDTLS => "ERROR: Fallo durante el handshake DTLS"@,
        ErrorDTLSProtocolo::ErrorSocketDTLS => "ERROR: Fallo en el socket DTLS"@,
        ErrorDTLSProtocolo::ErrorCertificadoRemotoInexistente => "ERROR: No se encontró el certificado remoto DTLS"@,
        ErrorDTLSProtocolo::ErrorRolIncorrecto => "ERROR: El rol DTLS establecido es incorrecto para la operación"@,
        ErrorDTLSProtocolo::ErrorObteniendoSocketRtpParaDtls => "ERROR: No se pudo obtener el socket RTP para DTLS"@,
        ErrorDTLSProtocolo::ErrorObteniendoSocketRtcpParaDtls => "ERROR: No se pudo obtener el socket RTCP para DTLS"@,
        ErrorDTLSProtocolo::ErrorStreamDTLS => "ERROR: Fallo al crear el stream DTLS"@,
        ErrorDTLSProtocolo::ClavesSRTPNoDisponibles => "ERROR: Las claves SRTP no están disponibles"@,
        ErrorDTLSProtocolo::ErrorIniciarPostDTLS => "ERROR: Fallo al iniciar la fase post-DTLS"@,
    }
}

impl ErrorDTLSProtocolo {
    /// Mensaje del error.
    pub fn a_texto(&self) -> (r: String)
        ensures
            r@ == texto_error_dtls(*self),
    {
        match self {
            ErrorDTLSProtocolo::ErrorFingerprintNoCoincide { esperado, recibido } => {
                let mut v: Vec<char> = Vec::new();
                agregar_texto(&mut v, "ERROR: La fingerprint no coincide. Esperado: ");
                agregar_texto(&mut v, esperado.as_str());
                agregar_texto(&mut v, ", Recibido: ");
                agregar_texto(&mut v, recibido.as_str());
                texto_desde(v.as_slice())
            },
            ErrorDTLSProtocolo::ErrorGenerandoCertificado => "ERROR: No se pudo generar el certificado DTLS".to_owned(),
            ErrorDTLSProtocolo::ErrorFingerprintInvalida => "ERROR: La fingerprint es inválida".to_owned(),
            ErrorDTLSProtocolo::ErrorFingerprintAlgoritmoNoSoportado => "ERROR: El algoritmo de la fingerprint no es soportado".to_owned(),
            ErrorDTLSProtocolo::ErrorFingerprintRemotoInexistente => "ERROR: No se encontró la fingerprint remota en la descripción de sesión".to_owned(),
            ErrorDTLSProtocolo::ErrorRolNoEstablecido => "ERROR: El rol DTLS no ha sido establecido".to_owned(),
            ErrorDTLSProtocolo::ErrorEnviandoMensaje => "ERROR: Fallo al enviar mensaje DTLS".to_owned(),
            ErrorDTLSProtocolo::ErrorRecibiendoMensaje => "ERROR: Fallo al recibir mensaje DTLS".to_owned(),
            ErrorDTLSProtocolo::ErrorCertificadoLocalNoDisponible => "ERROR: El certificado local DTLS no está disponible".to_owned(),
            ErrorDTLSProtocolo::ErrorCertificadoRemotoNoDisponible => "ERROR: El certificado remoto DTLS no está disponible".to_owned(),
            ErrorDTLSProtocolo::ErrorSetupInvalido => "ERROR: El valor de setup DTLS es inválido".to_owned(),
            ErrorDTLSProtocolo::ErrorSetupInexistente => "ERROR: No se encontró el valor de setup DTLS en la descripción de sesión".to_owned(),
            ErrorDTLSProtocolo::ErrorAnswererConActpass => "ERROR: El answerer no puede tener el valor 'actpass' en setup DTLS".to_owned(),
            ErrorDTLSProtocolo::ErrorCertificadoInvalido => "ERROR: El certificado DTLS es inválido".to_owned(),
            ErrorDTLSProtocolo::ErrorHandshakeDTLS => "ERROR: Fallo durante el handshake DTLS".to_owned(),
            ErrorDTLSProtocolo::ErrorSocketDTLS => "ERROR: Fallo en el socket DTLS".to_owned(),
            ErrorDTLSProtocolo::ErrorCertificadoRemotoInexistente => "ERROR: No se encontró el certificado remoto DTLS".to_owned(),
            ErrorDTLSProtocolo::ErrorRolIncorrecto => "ERROR: El rol DTLS establecido es incorrecto para la operación".to_owned(),
            ErrorDTLSProtocolo::ErrorObteniendoSocketRtpParaDtls => "ERROR: No se pudo obtener el socket RTP para DTLS".to_owned(),
            ErrorDTLSProtocolo::ErrorObteniendoSocketRtcpParaDtls => "ERROR: No se pudo obtener el socket RTCP para DTLS".to_owned(),
            ErrorDTLSProtocolo::ErrorStreamDTLS => "ERROR: Fallo al crear el stream DTLS".to_owned(),
            ErrorDTLSProtocolo::ClavesSRTPNoDisponibles => "ERROR: Las claves SRTP no están disponibles".to_owned(),
            ErrorDTLSProtocolo::ErrorIniciarPostDTLS => "ERROR: Fallo al iniciar la fase post-DTLS".to_owned(),
        }
    }
}

} // verus!
