//! Errores propios del protocolo SRTP.
use vstd::prelude::*;

use crate::texto::{agregar_texto, texto_desde};

verus! {

/// Errores que puede producir el contexto SRTP al proteger o verificar paquetes.
#[derive(Debug, Clone)]
pub enum ErrorSRTP {
    ErrorClaveSaltInvalida(String),
    ErrorPaqueteDemasiadoCorto(String),
    ErrorCifradoAES(String),
    ErrorHMAC(String),
    ErrorReplay(String),
    ErrorInterno(String),
}

/// Mensaje de un [`ErrorSRTP`]: una descripción según el tipo de error,
/// seguida del detalle.
pub open spec fn texto_error_srtp(e: ErrorSRTP) -> Seq<char> {
    match e {
        ErrorSRTP::ErrorClaveSaltInvalida(m) => "ERROR SRTP: Clave/Salt inválido - "@ + m@,
        ErrorSRTP::ErrorPaqueteDemasiadoCorto(m) =>
            "ERROR SRTP: El paquete es demasiado corto para ser procesado - "@ + m@,
        ErrorSRTP::ErrorCifradoAES(m) => "ERROR SRTP: Error durante el cifrado AES - "@ + m@,
        ErrorSRTP::ErrorHMAC(m) => "ERROR SRTP: Error durante el cálculo/verificación HMAC - "@
            + m@,
        ErrorSRTP::ErrorReplay(m) => "ERROR SRTP: Paquete repetido detectado - "@ + m@,
        ErrorSRTP::ErrorInterno(m) => "ERROR SRTP: Error interno - "@ + m@,
    }
}

impl ErrorSRTP {
    /// Mensaje del error.
    pub fn a_texto(&self) -> (r: String)
        ensures
            r@ == texto_error_srtp(*self),
    {
        let mut v: Vec<char> = Vec::new();
        let detalle = match self {
            ErrorSRTP::ErrorClaveSaltInvalida(m) => {
                agregar_texto(&mut v, "ERROR SRTP: Clave/Salt inválido - ");
                m
            },
            ErrorSRTP::ErrorPaqueteDemasiadoCorto(m) => {
                agregar_texto(&mut v, "ERROR SRTP: El paquete es demasiado corto para ser procesado - ");
                m
            },
            ErrorSRTP::ErrorCifradoAES(m) => {
                agregar_texto(&mut v, "ERROR SRTP: Error durante el cifrado AES - ");
                m
            },
            ErrorSRTP::ErrorHMAC(m) => {
                agregar_texto(&mut v, "ERROR SRTP: Error durante el cálculo/verificación HMAC - ");
                m
            },
            ErrorSRTP::ErrorReplay(m) => {
                agregar_texto(&mut v, "ERROR SRTP: Paquete repetido detectado - ");
                m
            },
            ErrorSRTP::ErrorInterno(m) => {
                agregar_texto(&mut v, "ERROR SRTP: Error interno - ");
                m
            },
        };
        agregar_texto(&mut v, detalle.as_str());
        texto_desde(v.as_slice())
    }
}

} // verus!
