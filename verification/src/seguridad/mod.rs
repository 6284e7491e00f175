pub mod dtls_protocolo;
pub mod primitivas;
pub mod srtp;
