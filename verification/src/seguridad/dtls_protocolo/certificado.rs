//! Certificado DTLS, guardado en su codificación DER.
use vstd::prelude::*;

verus! {

/// Certificado X.509 de una conexión DTLS, en su codificación DER. La huella
/// y el PKCS#12 se calculan a partir de estos bytes.
#[derive(Debug, Clone, PartialEq, Eq)]
pub struct CertificadoDTLS {
    der: Vec<u8>,
}

impl View for CertificadoDTLS {
    type V = Seq<u8>;

    closed spec fn view(&self) -> Seq<u8> {
        self.der@
    }
}

impl CertificadoDTLS {
    /// Certificado con la codificación DER dada.
    pub fn desde_der(der: Vec<u8>) -> (r: Self)
        ensures
            r@ == der@,
    {
        CertificadoDTLS { der }
    }

    /// Codificación DER del certificado.
    pub fn der(&self) -> (r: &Vec<u8>)
        ensures
            r@ == self@,
    {
        &self.der
    }
}

} // verus!
