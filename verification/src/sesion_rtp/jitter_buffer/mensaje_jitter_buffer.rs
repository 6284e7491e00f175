//! Mensajes que recibe el jitter buffer.
use vstd::prelude::*;

use crate::sesion_rtp::jitter_buffer::gestion_jitter_buffer::InformacionPaqueteRTP;

verus! {

/// Mensajes que recibe el jitter buffer: un paquete recibido, o el aviso de
/// que terminó la llamada.
pub enum MensajeJitterBuffer {
    MensajeFinalizacionLlamada,
    InformacionPaqueteRTP(InformacionPaqueteRTP),
}

} // verus!
