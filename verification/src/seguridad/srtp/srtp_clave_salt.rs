//! Clave maestra y salt de un flujo SRTP.
use vstd::prelude::*;

verus! {

/// Clave y salt SRTP de un sentido (transmisión o recepción) del flujo.
#[derive(Debug, Clone)]
pub struct SRTPClaveSalt {
    pub clave: Vec<u8>,
    pub salt: Vec<u8>,
}

impl SRTPClaveSalt {
    /// Agrupa una clave y un salt.
    pub fn new(clave: Vec<u8>, salt: Vec<u8>) -> (r: Self)
        ensures
            r.clave@ == clave@,
            r.salt@ == salt@,
    {
        SRTPClaveSalt { clave, salt }
    }
}

} // verus!
