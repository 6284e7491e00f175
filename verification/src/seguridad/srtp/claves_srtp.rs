//! Claves SRTP obtenidas del handshake DTLS.
use vstd::prelude::*;
use vstd::slice::slice_to_vec;

verus! {

/// Claves SRTP tal como salen del material exportado por DTLS.
#[derive(Debug, Clone)]
pub struct ClavesSRTPBrutas {
    pub client_key: [u8; 16],
    pub server_key: [u8; 16],
    pub client_salt: [u8; 14],
    pub server_salt: [u8; 14],
}

/// Claves SRTP ordenadas según el rol DTLS local.
#[derive(Debug, Clone)]
pub struct ClavesSRTP {
    pub clave_tx: Vec<u8>,
    pub clave_rx: Vec<u8>,
    pub salt_tx: Vec<u8>,
    pub salt_rx: Vec<u8>,
}

/// Dos juegos de claves con los mismos bytes.
pub open spec fn mismas_claves(a: ClavesSRTP, b: ClavesSRTP) -> bool {
    &&& a.clave_tx@ == b.clave_tx@
    &&& a.clave_rx@ == b.clave_rx@
    &&& a.salt_tx@ == b.salt_tx@
    &&& a.salt_rx@ == b.salt_rx@
}

impl ClavesSRTP {
    /// Copia de las claves.
    pub fn clonar(&self) -> (r: ClavesSRTP)
        ensures
            mismas_claves(*self, r),
    {
        ClavesSRTP {
            clave_tx: slice_to_vec(self.clave_tx.as_slice()),
            clave_rx: slice_to_vec(self.clave_rx.as_slice()),
            salt_tx: slice_to_vec(self.salt_tx.as_slice()),
            salt_rx: slice_to_vec(self.salt_rx.as_slice()),
        }
    }
}

} // verus!
