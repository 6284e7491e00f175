//! Jitter buffer: guarda los payloads recibidos ordenados por timestamp y
//! los entrega en orden, sincronizando el video con el audio.
pub mod error;
pub mod gestion_jitter_buffer;
pub mod mensaje_jitter_buffer;
