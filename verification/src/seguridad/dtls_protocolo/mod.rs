pub mod certificado;
pub mod dtls_contexto;
pub mod dtls_utils;
pub mod errores;
