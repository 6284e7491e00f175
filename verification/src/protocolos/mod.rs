//! Modelos de los protocolos usados por la biblioteca.
pub mod pca;
pub mod rtcp;
pub mod sdp;
