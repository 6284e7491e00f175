//! Errores del jitter buffer.
use vstd::prelude::*;

verus! {

/// Errores del jitter buffer.
#[derive(Debug, Clone, Copy, PartialEq, Eq, Structural)]
pub enum ErrorJitterBuffer {
    ObteniendoLock,
    EnviandoPorChannel,
    SinInformacionVideo,
    SinInformacionAudio,
}

} // verus!
