//! Contexto DTLS: certificados local y remoto, huella remota, rol y claves
//! SRTP derivadas del material exportado por el handshake DTLS.
use vstd::prelude::*;
use openssl::error::ErrorStack;
use openssl::pkey::{PKey, Private};
use openssl::ssl::SslRef;

use crate::seguridad::dtls_protocolo::certificado::CertificadoDTLS;
use crate::seguridad::dtls_protocolo::errores::ErrorDTLSProtocolo;
use crate::seguridad::srtp::claves_srtp::{mismas_claves, ClavesSRTP, ClavesSRTPBrutas};

verus! {

#[verifier::external_type_specification]
#[verifier::external_body]
#[verifier::reject_recursive_types(T)]
pub struct ExPKey<T>(PKey<T>);

#[verifier::external_type_specification]
#[verifier::external_body]
pub struct ExPrivate(Private);

#[verifier::external_type_specification]
#[verifier::external_body]
pub struct ExSslRef(SslRef);

/// Longitud de la clave maestra SRTP (SRTP_AES128_CM_HMAC_SHA1_80).
pub const SRTP_MASTER_KEY_LEN: usize = 16;

/// Longitud del salt maestro SRTP.
pub const SRTP_MASTER_SALT_LEN: usize = 14;

/// Longitud total del material exportado: dos claves y dos salts.
pub const SRTP_EXPORT_LEN: usize = 60;

/// Roles posibles en una conexión DTLS.
#[derive(Debug, Clone, Copy, PartialEq, Eq, Structural)]
pub enum RolDtls {
    Cliente,
    Servidor,
    Indefinido,
}

/// Contexto DTLS de una conexión.
#[derive(Clone)]
pub struct DtlsContexto {
    certificado_local: Option<CertificadoDTLS>,
    certificado_remoto: Option<CertificadoDTLS>,
    huella_remota: Option<String>,
    rol: RolDtls,
    clave_privada_local: Option<PKey<Private>>,
    pkcs12_local: Option<Vec<u8>>,
    claves_srtp: Option<ClavesSRTP>,
}

/// Claves brutas que corresponden a los 60 bytes de material exportado:
/// clave del cliente, clave del servidor, salt del cliente, salt del servidor.
pub open spec fn claves_desde_material(km: Seq<u8>, c: ClavesSRTPBrutas) -> bool {
    &&& c.client_key@ == km.subrange(0, 16)
    &&& c.server_key@ == km.subrange(16, 32)
    &&& c.client_salt@ == km.subrange(32, 46)
    &&& c.server_salt@ == km.subrange(46, 60)
}

/// Claves de transmisión y recepción que corresponden a un rol DTLS: el
/// cliente transmite con las claves del cliente y el servidor con las del servidor.
pub open spec fn claves_ordenadas(rol: RolDtls, b: ClavesSRTPBrutas, c: ClavesSRTP) -> bool {
    match rol {
        RolDtls::Cliente => {
            &&& c.clave_tx@ == b.client_key@
            &&& c.clave_rx@ == b.server_key@
            &&& c.salt_tx@ == b.client_salt@
            &&& c.salt_rx@ == b.server_salt@
        },
        RolDtls::Servidor => {
            &&& c.clave_tx@ == b.server_key@
            &&& c.clave_rx@ == b.client_key@
            &&& c.salt_tx@ == b.server_salt@
            &&& c.salt_rx@ == b.client_salt@
        },
        RolDtls::Indefinido => false,
    }
}

/// Etiqueta con la que se exporta el material de claves SRTP de una sesión
/// DTLS (RFC 5764, sección 4.2).
pub fn etiqueta_exportacion_srtp() -> (r: &'static str)
    ensures
        r@ == "EXTRACTOR-dtls_srtp"@,
{
    "EXTRACTOR-dtls_srtp"
}

/// Llama a `SslRef::export_keying_material` con la etiqueta dada y sin
/// contexto, escribiendo en `destino`. Se confía en que no cambia la longitud
/// del buffer; el material exportado depende de la sesión TLS y no se afirma
/// nada sobre su contenido.
#[verifier::external_body]
fn exportar_material(ssl: &SslRef, destino: &mut Vec<u8>, etiqueta: &str) -> (r: Result<
    (),
    ErrorStack,
>)
    ensures
        final(destino)@.len() == old(destino)@.len(),
{
    ssl.export_keying_material(destino.as_mut_slice(), etiqueta, None)
}

fn copiar_16(km: &[u8], desde: usize) -> (r: [u8; 16])
    requires
        desde + 16 <= km@.len(),
    ensures
        r@ == km@.subrange(desde as int, desde + 16),
{
    let r = [
        km[desde],
        km[desde + 1],
        km[desde + 2],
        km[desde + 3],
        km[desde + 4],
        km[desde + 5],
        km[desde + 6],
        km[desde + 7],
        km[desde + 8],
        km[desde + 9],
        km[desde + 10],
        km[desde + 11],
        km[desde + 12],
        km[desde + 13],
        km[desde + 14],
        km[desde + 15],
    ];
    assert(r@ =~= km@.subrange(desde as int, desde + 16));
    r
}

fn copiar_14(km: &[u8], desde: usize) -> (r: [u8; 14])
    requires
        desde + 14 <= km@.len(),
    ensures
        r@ == km@.subrange(desde as int, desde + 14),
{
    let r = [
        km[desde],
        km[desde + 1],
        km[desde + 2],
        km[desde + 3],
        km[desde + 4],
        km[desde + 5],
        km[desde + 6],
        km[desde + 7],
        km[desde + 8],
        km[desde + 9],
        km[desde + 10],
        km[desde + 11],
        km[desde + 12],
        km[desde + 13],
    ];
    assert(r@ =~= km@.subrange(desde as int, desde + 14));
    r
}

fn a_vec_16(a: &[u8; 16]) -> (r: Vec<u8>)
    ensures
        r@ == a@,
{
    vstd::slice::slice_to_vec(a.as_slice())
}

fn a_vec_14(a: &[u8; 14]) -> (r: Vec<u8>)
    ensures
        r@ == a@,
{
    vstd::slice::slice_to_vec(a.as_slice())
}

impl Default for DtlsContexto {
    fn default() -> (r: Self)
        ensures
            r.obtener_rol_spec() == RolDtls::Indefinido,
            r.claves_srtp_spec() is None,
            r.huella_remota_spec() is None,
            r.pkcs12_spec() is None,
            r.tiene_certificado_local() == false,
            r.tiene_certificado_remoto() == false,
            r.tiene_clave_privada_local() == false,
    {
        DtlsContexto::new()
    }
}

impl DtlsContexto {
    /// Crea un contexto DTLS vacío con rol indefinido.
    pub fn new() -> (r: Self)
        ensures
            r.obtener_rol_spec() == RolDtls::Indefinido,
            r.claves_srtp_spec() is None,
            r.huella_remota_spec() is None,
            r.pkcs12_spec() is None,
            r.tiene_certificado_local() == false,
            r.tiene_certificado_remoto() == false,
            r.tiene_clave_privada_local() == false,
    {
        Self {
            certificado_local: None,
            certificado_remoto: None,
            huella_remota: None,
            rol: RolDtls::Indefinido,
            clave_privada_local: None,
            pkcs12_local: None,
            claves_srtp: None,
        }
    }

    pub closed spec fn obtener_rol_spec(&self) -> RolDtls {
        self.rol
    }

    pub closed spec fn claves_srtp_spec(&self) -> Option<ClavesSRTP> {
        self.claves_srtp
    }

    pub closed spec fn huella_remota_spec(&self) -> Option<Seq<char>> {
        match self.huella_remota {
            Some(h) => Some(h@),
            None => None,
        }
    }

    pub closed spec fn pkcs12_spec(&self) -> Option<Seq<u8>> {
        match self.pkcs12_local {
            Some(p) => Some(p@),
            None => None,
        }
    }

    /// Codificación DER del certificado local, si se guardó.
    pub closed spec fn certificado_local_spec(&self) -> Option<Seq<u8>> {
        match self.certificado_local {
            Some(c) => Some(c@),
            None => None,
        }
    }

    /// Codificación DER del certificado remoto, si se guardó.
    pub closed spec fn certificado_remoto_spec(&self) -> Option<Seq<u8>> {
        match self.certificado_remoto {
            Some(c) => Some(c@),
            None => None,
        }
    }

    pub closed spec fn tiene_certificado_local(&self) -> bool {
        self.certificado_local is Some
    }

    pub closed spec fn tiene_certificado_remoto(&self) -> bool {
        self.certificado_remoto is Some
    }

    pub closed spec fn tiene_clave_privada_local(&self) -> bool {
        self.clave_privada_local is Some
    }

    /// Guarda el certificado local.
    pub fn guardar_certificado_local(&mut self, certificado: CertificadoDTLS)
        ensures
            final(self).tiene_certificado_local(),
            final(self).certificado_local_spec() == Some(certificado@),
            final(self).certificado_remoto_spec() == old(self).certificado_remoto_spec(),
            final(self).tiene_clave_privada_local() == old(self).tiene_clave_privada_local(),
            final(self).obtener_rol_spec() == old(self).obtener_rol_spec(),
            final(self).huella_remota_spec() == old(self).huella_remota_spec(),
            final(self).pkcs12_spec() == old(self).pkcs12_spec(),
            final(self).claves_srtp_spec() == old(self).claves_srtp_spec(),
    {
        self.certificado_local = Some(certificado);
    }

    /// Guarda la huella digital del certificado remoto.
    pub fn guardar_huella_remota(&mut self, fp: String)
        ensures
            final(self).huella_remota_spec() == Some(fp@),
            final(self).certificado_local_spec() == old(self).certificado_local_spec(),
            final(self).certificado_remoto_spec() == old(self).certificado_remoto_spec(),
            final(self).tiene_clave_privada_local() == old(self).tiene_clave_privada_local(),
            final(self).obtener_rol_spec() == old(self).obtener_rol_spec(),
            final(self).pkcs12_spec() == old(self).pkcs12_spec(),
            final(self).claves_srtp_spec() == old(self).claves_srtp_spec(),
    {
        self.huella_remota = Some(fp);
    }

    /// Establece el rol DTLS.
    pub fn establecer_rol(&mut self, rol: RolDtls)
        ensures
            final(self).obtener_rol_spec() == rol,
            final(self).huella_remota_spec() == old(self).huella_remota_spec(),
            final(self).certificado_local_spec() == old(self).certificado_local_spec(),
            final(self).certificado_remoto_spec() == old(self).certificado_remoto_spec(),
            final(self).tiene_clave_privada_local() == old(self).tiene_clave_privada_local(),
            final(self).pkcs12_spec() == old(self).pkcs12_spec(),
            final(self).claves_srtp_spec() == old(self).claves_srtp_spec(),
    {
        self.rol = rol;
    }

    /// Obtiene el rol DTLS.
    pub fn obtener_rol(&self) -> (r: RolDtls)
        ensures
            r == self.obtener_rol_spec(),
    {
        self.rol
    }

    /// Obtiene el certificado local, si se guardó.
    pub fn obtener_certificado_local(&self) -> (r: Option<&CertificadoDTLS>)
        ensures
            r is Some == self.tiene_certificado_local(),
            match r {
                Some(c) => self.certificado_local_spec() == Some(c@),
                None => self.certificado_local_spec() is None,
            },
    {
        self.certificado_local.as_ref()
    }

    /// Obtiene la huella digital del certificado remoto, si se guardó.
    pub fn obtener_huella_remota(&self) -> (r: Option<&String>)
        ensures
            match r {
                Some(h) => self.huella_remota_spec() == Some(h@),
                None => self.huella_remota_spec() is None,
            },
    {
        self.huella_remota.as_ref()
    }

    /// Guarda la clave privada local.
    pub fn guardar_clave_privada_local(&mut self, key: PKey<Private>)
        ensures
            final(self).tiene_clave_privada_local(),
            final(self).certificado_local_spec() == old(self).certificado_local_spec(),
            final(self).certificado_remoto_spec() == old(self).certificado_remoto_spec(),
            final(self).huella_remota_spec() == old(self).huella_remota_spec(),
            final(self).obtener_rol_spec() == old(self).obtener_rol_spec(),
            final(self).pkcs12_spec() == old(self).pkcs12_spec(),
            final(self).claves_srtp_spec() == old(self).claves_srtp_spec(),
    {
        self.clave_privada_local = Some(key);
    }

    /// Obtiene la clave privada local, si se guardó.
    pub fn obtener_clave_privada_local(&self) -> (r: Option<&PKey<Private>>)
        ensures
            r is Some == self.tiene_clave_privada_local(),
    {
        self.clave_privada_local.as_ref()
    }

    /// Obtiene el PKCS#12 local, si se guardó.
    pub fn obtener_pkcs12_local(&self) -> (r: Option<&Vec<u8>>)
        ensures
            match r {
                Some(p) => self.pkcs12_spec() == Some(p@),
                None => self.pkcs12_spec() is None,
            },
    {
        self.pkcs12_local.as_ref()
    }

    /// Guarda el PKCS#12 local.
    pub fn setear_pkcs12_local(&mut self, pkcs12: Vec<u8>)
        ensures
            final(self).pkcs12_spec() == Some(pkcs12@),
            final(self).certificado_local_spec() == old(self).certificado_local_spec(),
            final(self).certificado_remoto_spec() == old(self).certificado_remoto_spec(),
            final(self).tiene_clave_privada_local() == old(self).tiene_clave_privada_local(),
            final(self).huella_remota_spec() == old(self).huella_remota_spec(),
            final(self).obtener_rol_spec() == old(self).obtener_rol_spec(),
            final(self).claves_srtp_spec() == old(self).claves_srtp_spec(),
    {
        self.pkcs12_local = Some(pkcs12);
    }

    /// Guarda el certificado remoto.
    pub fn establecer_certificado_remoto(&mut self, certificado: CertificadoDTLS)
        ensures
            final(self).tiene_certificado_remoto(),
            final(self).certificado_remoto_spec() == Some(certificado@),
            final(self).certificado_local_spec() == old(self).certificado_local_spec(),
            final(self).tiene_clave_privada_local() == old(self).tiene_clave_privada_local(),
            final(self).huella_remota_spec() == old(self).huella_remota_spec(),
            final(self).obtener_rol_spec() == old(self).obtener_rol_spec(),
            final(self).pkcs12_spec() == old(self).pkcs12_spec(),
            final(self).claves_srtp_spec() == old(self).claves_srtp_spec(),
    {
        self.certificado_remoto = Some(certificado);
    }

    /// Obtiene el certificado remoto, si se guardó.
    pub fn obtener_certificado_remoto(&self) -> (r: Option<&CertificadoDTLS>)
        ensures
            r is Some == self.tiene_certificado_remoto(),
            match r {
                Some(c) => self.certificado_remoto_spec() == Some(c@),
                None => self.certificado_remoto_spec() is None,
            },
    {
        self.certificado_remoto.as_ref()
    }

    /// Obtiene las claves SRTP, si ya se exportaron.
    pub fn obtener_claves_srtp(&self) -> (r: Option<&ClavesSRTP>)
        ensures
            match r {
                Some(c) => self.claves_srtp_spec() == Some(*c),
                None => self.claves_srtp_spec() is None,
            },
    {
        self.claves_srtp.as_ref()
    }

    /// Separa los 60 bytes de material exportado en las claves y salts del
    /// cliente y del servidor.
    pub fn dividir_material_claves(keying_material: &[u8]) -> (r: ClavesSRTPBrutas)
        requires
            keying_material@.len() == 60,
        ensures
            claves_desde_material(keying_material@, r),
    {
        let mut offset: usize = 0;
        let clave_escritura_cliente = copiar_16(keying_material, offset);
        offset += SRTP_MASTER_KEY_LEN;
        let clave_escritura_remota = copiar_16(keying_material, offset);
        offset += SRTP_MASTER_KEY_LEN;
        let salt_escritura_cliente = copiar_14(keying_material, offset);
        offset += SRTP_MASTER_SALT_LEN;
        let salt_escritura_remota = copiar_14(keying_material, offset);
        ClavesSRTPBrutas {
            client_key: clave_escritura_cliente,
            server_key: clave_escritura_remota,
            client_salt: salt_escritura_cliente,
            server_salt: salt_escritura_remota,
        }
    }

    /// Asigna las claves brutas a transmisión y recepción según el rol DTLS.
    pub fn ordenar_claves_por_rol(rol: RolDtls, brutas: &ClavesSRTPBrutas) -> (r: Result<
        ClavesSRTP,
        ErrorDTLSProtocolo,
    >)
        ensures
            rol == RolDtls::Indefinido ==> r matches Err(ErrorDTLSProtocolo::ErrorRolNoEstablecido),
            rol != RolDtls::Indefinido ==> (r matches Ok(c) && claves_ordenadas(rol, *brutas, c)),
    {
        match rol {
            RolDtls::Cliente => Ok(
                ClavesSRTP {
                    clave_tx: a_vec_16(&brutas.client_key),
                    clave_rx: a_vec_16(&brutas.server_key),
                    salt_tx: a_vec_14(&brutas.client_salt),
                    salt_rx: a_vec_14(&brutas.server_salt),
                },
            ),
            RolDtls::Servidor => Ok(
                ClavesSRTP {
                    clave_tx: a_vec_16(&brutas.server_key),
                    clave_rx: a_vec_16(&brutas.client_key),
                    salt_tx: a_vec_14(&brutas.server_salt),
                    salt_rx: a_vec_14(&brutas.client_salt),
                },
            ),
            RolDtls::Indefinido => Err(ErrorDTLSProtocolo::ErrorRolNoEstablecido),
        }
    }

    fn exportar_keying_material(ssl: &SslRef) -> (r: Result<Vec<u8>, ErrorDTLSProtocolo>)
        ensures
            r matches Ok(km) ==> km@.len() == SRTP_EXPORT_LEN,
            r matches Err(e) ==> e is ClavesSRTPNoDisponibles,
    {
        let mut keying_material: Vec<u8> = vec![0u8; SRTP_EXPORT_LEN];
        match exportar_material(ssl, &mut keying_material, etiqueta_exportacion_srtp()) {
            Ok(()) => Ok(keying_material),
            Err(_) => Err(ErrorDTLSProtocolo::ClavesSRTPNoDisponibles),
        }
    }

    fn generar_claves_srtp_derivadas(ssl: &SslRef) -> (r: Result<
        ClavesSRTPBrutas,
        ErrorDTLSProtocolo,
    >)
        ensures
            r matches Err(e) ==> e is ClavesSRTPNoDisponibles,
            r matches Ok(c) ==> exists|km: Seq<u8>| km.len() == 60 && claves_desde_material(km, c),
    {
        let keying_material = Self::exportar_keying_material(ssl)?;
        let c = Self::dividir_material_claves(keying_material.as_slice());
        Ok(c)
    }

    /// Exporta (una sola vez) las claves SRTP derivadas del handshake DTLS,
    /// ordenadas según el rol, y las devuelve.
    pub fn exportar_claves_srtp(&mut self, ssl: &SslRef) -> (r: Result<
        ClavesSRTP,
        ErrorDTLSProtocolo,
    >)
        ensures
            final(self).obtener_rol_spec() == old(self).obtener_rol_spec(),
            final(self).huella_remota_spec() == old(self).huella_remota_spec(),
            final(self).pkcs12_spec() == old(self).pkcs12_spec(),
            final(self).certificado_local_spec() == old(self).certificado_local_spec(),
            final(self).certificado_remoto_spec() == old(self).certificado_remoto_spec(),
            final(self).tiene_clave_privada_local() == old(self).tiene_clave_privada_local(),
            old(self).claves_srtp_spec() matches Some(c) ==> (r matches Ok(d) && mismas_claves(c, d)
                && final(self).claves_srtp_spec() == Some(c)),
            old(self).claves_srtp_spec() is None && old(self).obtener_rol_spec()
                == RolDtls::Indefinido ==> r is Err,
            old(self).claves_srtp_spec() is None ==> match r {
                Ok(c) => {
                    &&& final(self).claves_srtp_spec() matches Some(d) && mismas_claves(d, c)
                    &&& exists|km: Seq<u8>, b: ClavesSRTPBrutas|
                        km.len() == 60 && claves_desde_material(km, b) && claves_ordenadas(
                            old(self).obtener_rol_spec(),
                            b,
                            c,
                        )
                },
                Err(e) => {
                    &&& final(self).claves_srtp_spec() is None
                    &&& (e is ClavesSRTPNoDisponibles || e is ErrorRolNoEstablecido)
                },
            },
    {
        if self.claves_srtp.is_none() {
            let brutas = match Self::generar_claves_srtp_derivadas(ssl) {
                Ok(b) => b,
                Err(_) => {
                    return Err(ErrorDTLSProtocolo::ClavesSRTPNoDisponibles);
                },
            };
            let claves = Self::ordenar_claves_por_rol(self.rol, &brutas)?;
            self.claves_srtp = Some(claves.clonar());
            return Ok(claves);
        }
        match &self.claves_srtp {
            Some(c) => Ok(c.clonar()),
            None => Err(ErrorDTLSProtocolo::ClavesSRTPNoDisponibles),
        }
    }
}

} // verus!
