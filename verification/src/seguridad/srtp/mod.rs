pub mod claves_srtp;
pub mod errores;
pub mod srtp_clave_salt;
pub mod srtp_contexto;
