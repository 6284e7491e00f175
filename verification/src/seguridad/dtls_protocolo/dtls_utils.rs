//! Utilidades DTLS para SDP: huella SHA-256 del certificado en formato SDP,
//! lectura de los atributos `a=fingerprint` y `a=setup`, validación de la
//! huella recibida y elección del rol DTLS.
use vstd::prelude::*;
use openssl::asn1::Asn1Time;
use openssl::error::ErrorStack;
use openssl::hash::MessageDigest;
use openssl::pkcs12::Pkcs12;
use openssl::pkey::{PKey, Private};
use openssl::rsa::Rsa;
use openssl::x509::{X509, X509Builder, X509Name, X509NameBuilder};
use udp_dtls::{Certificate, SignatureAlgorithm};

use crate::protocolos::sdp::{atributos_de, DescripcionDeSesion};
use crate::seguridad::dtls_protocolo::certificado::CertificadoDTLS;
use crate::seguridad::dtls_protocolo::dtls_contexto::RolDtls;
use crate::seguridad::dtls_protocolo::errores::ErrorDTLSProtocolo;
use crate::texto::{
    ascii_sin_minuscula, espacio_en_blanco, lema_palabras_dos, lema_recortar_sin_espacios,
    sin_espacios, a_mayusculas, a_minusculas, caracteres, empieza_con, mayusculas_texto, minusculas_texto,
    lema_mayusculas_sin_minusculas,
    mismos_caracteres, palabras, recortar, recortar_caracteres, separar_palabras, slice_a_vec,
    texto_desde,
};

verus! {

#[verifier::external_type_specification]
#[verifier::external_body]
pub struct ExUdpDtlsError(udp_dtls::Error);

#[verifier::external_type_specification]
#[verifier::external_body]
#[verifier::reject_recursive_types(T)]
pub struct ExRsa<T>(Rsa<T>);

#[verifier::external_type_specification]
#[verifier::external_body]
pub struct ExX509NameBuilder(X509NameBuilder);

#[verifier::external_type_specification]
#[verifier::external_body]
pub struct ExX509Name(X509Name);

#[verifier::external_type_specification]
#[verifier::external_body]
pub struct ExX509Builder(X509Builder);

#[verifier::external_type_specification]
#[verifier::external_body]
pub struct ExX509(X509);

#[verifier::external_type_specification]
#[verifier::external_body]
pub struct ExAsn1Time(Asn1Time);

#[verifier::external_type_specification]
#[verifier::external_body]
pub struct ExPkcs12(Pkcs12);

/// Llama a `openssl::rsa::Rsa::generate`. La clave es aleatoria: no se
/// afirma nada sobre ella ni sobre cuándo falla.
#[verifier::external_body]
fn generar_rsa(bits: u32) -> (r: Result<Rsa<Private>, ErrorStack>) {
    Rsa::generate(bits)
}

/// Llama a `openssl::pkey::PKey::from_rsa`. No se afirma nada sobre el resultado.
#[verifier::external_body]
fn pkey_desde_rsa(rsa: Rsa<Private>) -> (r: Result<PKey<Private>, ErrorStack>) {
    PKey::from_rsa(rsa)
}

/// Llama a `openssl::x509::X509NameBuilder::new`. No se afirma nada sobre el resultado.
#[verifier::external_body]
fn nuevo_constructor_nombre() -> (r: Result<X509NameBuilder, ErrorStack>) {
    X509NameBuilder::new()
}

/// Llama a `X509NameBuilder::append_entry_by_text`. No se afirma nada sobre
/// el nombre resultante ni sobre cuándo falla. La llamada entra en pánico si
/// el campo tiene un caracter nulo o si la longitud en bytes del valor no
/// cabe en un `int` de C; como cada caracter ocupa a lo sumo 4 bytes en
/// UTF-8, se exige que cuatro veces la cantidad de caracteres quepa.
#[verifier::external_body]
fn agregar_entrada_nombre(constructor: &mut X509NameBuilder, campo: &str, valor: &str) -> (r:
    Result<(), ErrorStack>)
    requires
        !campo@.contains('\0'),
        valor@.len() * 4 <= i32::MAX,
{
    constructor.append_entry_by_text(campo, valor)
}

/// Llama a `X509NameBuilder::build`. No se afirma nada sobre el resultado.
#[verifier::external_body]
fn construir_nombre(constructor: X509NameBuilder) -> (r: X509Name) {
    constructor.build()
}

/// Llama a `openssl::x509::X509::builder`. No se afirma nada sobre el resultado.
#[verifier::external_body]
fn nuevo_constructor_x509() -> (r: Result<X509Builder, ErrorStack>) {
    X509::builder()
}

/// Llama a `X509Builder::set_version`. No se afirma nada sobre el efecto.
#[verifier::external_body]
fn fijar_version(constructor: &mut X509Builder, version: i32) -> (r: Result<(), ErrorStack>) {
    constructor.set_version(version)
}

/// Llama a `X509Builder::set_subject_name`. No se afirma nada sobre el efecto.
#[verifier::external_body]
fn fijar_sujeto(constructor: &mut X509Builder, nombre: &X509Name) -> (r: Result<(), ErrorStack>) {
    constructor.set_subject_name(nombre)
}

/// Llama a `X509Builder::set_issuer_name`. No se afirma nada sobre el efecto.
#[verifier::external_body]
fn fijar_emisor(constructor: &mut X509Builder, nombre: &X509Name) -> (r: Result<(), ErrorStack>) {
    constructor.set_issuer_name(nombre)
}

/// Llama a `X509Builder::set_pubkey`. No se afirma nada sobre el efecto.
#[verifier::external_body]
fn fijar_clave_publica(constructor: &mut X509Builder, clave: &PKey<Private>) -> (r: Result<
    (),
    ErrorStack,
>) {
    constructor.set_pubkey(clave)
}

/// Llama a `openssl::asn1::Asn1Time::days_from_now`. El resultado depende
/// de la hora actual: no se afirma nada sobre él. Los segundos de los días
/// pedidos deben caber en un `long` de C de 32 bits.
#[verifier::external_body]
fn dias_desde_hoy(dias: u32) -> (r: Result<Asn1Time, ErrorStack>)
    requires
        dias <= 24855,
{
    Asn1Time::days_from_now(dias)
}

/// Llama a `X509Builder::set_not_before`. No se afirma nada sobre el efecto.
#[verifier::external_body]
fn fijar_inicio_validez(constructor: &mut X509Builder, fecha: &Asn1Time) -> (r: Result<
    (),
    ErrorStack,
>) {
    constructor.set_not_before(fecha)
}

/// Llama a `X509Builder::set_not_after`. No se afirma nada sobre el efecto.
#[verifier::external_body]
fn fijar_fin_validez(constructor: &mut X509Builder, fecha: &Asn1Time) -> (r: Result<
    (),
    ErrorStack,
>) {
    constructor.set_not_after(fecha)
}

/// Llama a `X509Builder::sign` con `MessageDigest::sha256`. No se afirma
/// nada sobre la firma ni sobre cuándo falla.
#[verifier::external_body]
fn firmar_sha256(constructor: &mut X509Builder, clave: &PKey<Private>) -> (r: Result<
    (),
    ErrorStack,
>) {
    constructor.sign(clave, MessageDigest::sha256())
}

/// Llama a `X509Builder::build`. No se afirma nada sobre el resultado.
#[verifier::external_body]
fn construir_x509(constructor: X509Builder) -> (r: X509) {
    constructor.build()
}

/// Envuelve el certificado X.509 en un `udp_dtls::Certificate` y llama a
/// `Certificate::to_der` (que llama a `X509Ref::to_der`, `i2d_X509`). El
/// certificado tiene una clave aleatoria: de los bytes sólo se afirma que no
/// son vacíos (una longitud no positiva de `i2d_X509` es un error); no se
/// afirma cuándo falla.
#[verifier::external_body]
fn der_de_x509(x509: X509) -> (r: Result<Vec<u8>, udp_dtls::Error>)
    ensures
        r matches Ok(v) ==> v@.len() > 0,
{
    Certificate(x509).to_der()
}

/// Llama a `openssl::x509::X509::from_der`. No se afirma nada sobre el
/// certificado leído ni sobre cuándo falla.
#[verifier::external_body]
fn x509_desde_der(der: &[u8]) -> (r: Result<X509, ErrorStack>) {
    X509::from_der(der)
}

/// Llama a `openssl::pkcs12::Pkcs12::builder` y, sobre el constructor,
/// `name`, `pkey`, `cert` y `build2`, que juntos arman un único contenedor
/// PKCS#12. No se afirma nada sobre el contenedor (su salt es aleatorio) ni
/// sobre cuándo falla. `name` y `build2` entran en pánico si el nombre o la
/// contraseña tienen un caracter nulo, por eso se exige lo contrario.
#[verifier::external_body]
fn armar_pkcs12(x509: &X509, clave: &PKey<Private>, nombre: &str, contrasena: &str) -> (r: Result<
    Pkcs12,
    ErrorStack,
>)
    requires
        !nombre@.contains('\0'),
        !contrasena@.contains('\0'),
{
    Pkcs12::builder().name(nombre).pkey(clave).cert(x509).build2(contrasena)
}

/// Llama a `Pkcs12::to_der` (`i2d_PKCS12`). El contenedor tiene un salt
/// aleatorio: de los bytes sólo se afirma que no son vacíos (una longitud no
/// positiva es un error); no se afirma cuándo falla.
#[verifier::external_body]
fn pkcs12_a_der(pkcs12: &Pkcs12) -> (r: Result<Vec<u8>, ErrorStack>)
    ensures
        r matches Ok(v) ==> v@.len() > 0,
{
    pkcs12.to_der()
}

/// Prefijo de la línea SDP con la huella del certificado.
pub open spec fn prefijo_fingerprint() -> Seq<char> {
    "a=fingerprint:"@
}

/// Prefijo de la línea SDP con el atributo `setup`.
pub open spec fn prefijo_setup() -> Seq<char> {
    "a=setup:"@
}

/// Dígito hexadecimal en mayúscula de un valor entre 0 y 15.
pub open spec fn digito_hex(n: u8) -> char {
    if n < 10 {
        (48 + n) as char
    } else {
        (55 + n) as char
    }
}

/// Los dos dígitos hexadecimales en mayúscula de un byte (como `{:02X}`).
pub open spec fn hex_byte(b: u8) -> Seq<char> {
    seq![digito_hex(b / 16), digito_hex(b % 16)]
}

/// Huella en formato SDP: cada byte en dos dígitos hexadecimales en
/// mayúscula, separados por `:`.
pub open spec fn huella_sdp(h: Seq<u8>) -> Seq<char>
    decreases h.len(),
{
    if h.len() == 0 {
        Seq::empty()
    } else if h.len() == 1 {
        hex_byte(h[0])
    } else {
        huella_sdp(h.drop_last()) + seq![':'] + hex_byte(h.last())
    }
}

/// Línea SDP `a=fingerprint:SHA-256 <huella>`.
pub open spec fn linea_fingerprint(huella: Seq<char>) -> Seq<char> {
    "a=fingerprint:SHA-256 "@ + huella
}

/// Resultado de leer una línea `a=fingerprint`: sin el prefijo, o sin
/// ninguna palabra después de él, la huella es inválida.
pub open spec fn fingerprint_leido(linea: Seq<char>) -> Result<Seq<char>, ErrorDTLSProtocolo> {
    let p = prefijo_fingerprint();
    if !(p.len() <= linea.len() && linea.take(p.len() as int) == p) {
        Err(ErrorDTLSProtocolo::ErrorFingerprintInvalida)
    } else {
        let w = palabras(linea.skip(p.len() as int));
        if w.len() == 0 {
            Err(ErrorDTLSProtocolo::ErrorFingerprintInvalida)
        } else if mayusculas_texto(w[0]) != "SHA-256"@ {
            Err(ErrorDTLSProtocolo::ErrorFingerprintAlgoritmoNoSoportado)
        } else if w.len() != 2 {
            Err(ErrorDTLSProtocolo::ErrorFingerprintInvalida)
        } else {
            Ok(mayusculas_texto(recortar(w[1])))
        }
    }
}

/// Valor del atributo `setup` normalizado: sin espacios, sin el prefijo
/// `a=setup:` si lo tiene, y en minúsculas.
pub open spec fn setup_normalizado(linea: Seq<char>) -> Seq<char> {
    let t = recortar(linea);
    let p = prefijo_setup();
    if p.len() <= t.len() && t.take(p.len() as int) == p {
        minusculas_texto(recortar(t.skip(p.len() as int)))
    } else {
        minusculas_texto(t)
    }
}

/// Valores válidos del atributo `setup`.
pub open spec fn setup_valido(v: Seq<char>) -> bool {
    v == "active"@ || v == "passive"@ || v == "actpass"@
}

/// Rol DTLS que corresponde al valor `setup` leído del otro extremo.
pub open spec fn rol_desde_setup(setup: Seq<char>, soy_offer: bool) -> Result<
    RolDtls,
    ErrorDTLSProtocolo,
> {
    if setup == "active"@ {
        if soy_offer {
            Ok(RolDtls::Servidor)
        } else {
            Err(ErrorDTLSProtocolo::ErrorSetupInvalido)
        }
    } else if setup == "passive"@ {
        if soy_offer {
            Ok(RolDtls::Cliente)
        } else {
            Err(ErrorDTLSProtocolo::ErrorSetupInvalido)
        }
    } else if setup == "actpass"@ {
        if soy_offer {
            Ok(RolDtls::Servidor)
        } else {
            Ok(RolDtls::Cliente)
        }
    } else {
        Err(ErrorDTLSProtocolo::ErrorSetupInvalido)
    }
}

/// Valor del atributo `setup` que anuncia cada lado de la negociación.
pub open spec fn atributo_setup(es_offerer: bool) -> Seq<char> {
    if es_offerer {
        "a=setup:actpass"@
    } else {
        "a=setup:active"@
    }
}

/// Huella SHA-256 de un certificado dado por su codificación DER, o `None`
/// si los bytes no son un certificado X.509 que OpenSSL pueda leer y resumir.
pub uninterp spec fn sha256_certificado(der: Seq<u8>) -> Option<Seq<u8>>;

/// Lee el certificado con `udp_dtls::Certificate::from_der` y llama a
/// `Certificate::fingerprint` con SHA-256, que devuelve el resumen
/// (`X509Ref::digest`) de la codificación DER: 32 bytes. El resultado depende
/// sólo de los bytes dados: se lo nombra con [`sha256_certificado`].
#[verifier::external_body]
fn huella_sha256(der: &[u8]) -> (r: Result<Vec<u8>, udp_dtls::Error>)
    ensures
        r is Ok <==> sha256_certificado(der@) is Some,
        r matches Ok(v) ==> sha256_certificado(der@) == Some(v@),
        r matches Ok(v) ==> v@.len() == 32,
{
    Certificate::from_der(der)?.fingerprint(SignatureAlgorithm::Sha256).map(|h| h.bytes)
}

/// Lo que se le pasa a OpenSSL al generar el certificado DTLS y su
/// contenedor PKCS#12.
pub struct ParametrosCertificado {
    /// Tamaño en bits de la clave RSA.
    pub bits_rsa: u32,
    /// Campo del nombre del sujeto y del emisor.
    pub campo_nombre: &'static str,
    /// Valor de ese campo.
    pub valor_nombre: &'static str,
    /// Valor del campo `version` del certificado (2 es X.509 v3).
    pub version: i32,
    /// Días de validez a partir de hoy.
    pub dias_validez: u32,
    /// Nombre amistoso del contenedor PKCS#12.
    pub nombre_pkcs12: &'static str,
    /// Contraseña del contenedor PKCS#12.
    pub contrasena_pkcs12: &'static str,
}

/// Parámetros del certificado DTLS autofirmado: RSA de 2048 bits,
/// `CN=localhost` como sujeto y emisor, versión X.509 v3, 365 días de
/// validez desde hoy, contenedor PKCS#12 `rtc-peer` con contraseña `1234`.
pub fn parametros_certificado_dtls() -> (p: ParametrosCertificado)
    ensures
        p.bits_rsa == 2048,
        p.campo_nombre@ == "CN"@,
        p.valor_nombre@ == "localhost"@,
        p.version == 2,
        p.dias_validez == 365,
        p.nombre_pkcs12@ == "rtc-peer"@,
        p.contrasena_pkcs12@ == "1234"@,
{
    ParametrosCertificado {
        bits_rsa: 2048,
        campo_nombre: "CN",
        valor_nombre: "localhost",
        version: 2,
        dias_validez: 365,
        nombre_pkcs12: "rtc-peer",
        contrasena_pkcs12: "1234",
    }
}

fn generar_clave_pkey(bits: u32) -> (r: Result<PKey<Private>, ErrorDTLSProtocolo>)
    ensures
        r matches Err(e) ==> e is ErrorGenerandoCertificado,
{
    let rsa = match generar_rsa(bits) {
        Ok(r) => r,
        Err(_) => {
            return Err(ErrorDTLSProtocolo::ErrorGenerandoCertificado);
        },
    };
    match pkey_desde_rsa(rsa) {
        Ok(k) => Ok(k),
        Err(_) => Err(ErrorDTLSProtocolo::ErrorGenerandoCertificado),
    }
}

fn construir_nombre_certificado(campo: &str, valor: &str) -> (r: Result<
    X509Name,
    ErrorDTLSProtocolo,
>)
    requires
        !campo@.contains('\0'),
        valor@.len() * 4 <= i32::MAX,
    ensures
        r matches Err(e) ==> e is ErrorGenerandoCertificado,
{
    let mut constructor = match nuevo_constructor_nombre() {
        Ok(c) => c,
        Err(_) => {
            return Err(ErrorDTLSProtocolo::ErrorGenerandoCertificado);
        },
    };
    if agregar_entrada_nombre(&mut constructor, campo, valor).is_err() {
        return Err(ErrorDTLSProtocolo::ErrorGenerandoCertificado);
    }
    Ok(construir_nombre(constructor))
}

fn setear_validez_certificado(certificado: &mut X509Builder, dias_validos: u32) -> (r: Result<
    (),
    ErrorDTLSProtocolo,
>)
    requires
        dias_validos <= 24855,
    ensures
        r matches Err(e) ==> e is ErrorGenerandoCertificado,
{
    let inicio = match dias_desde_hoy(0) {
        Ok(t) => t,
        Err(_) => {
            return Err(ErrorDTLSProtocolo::ErrorGenerandoCertificado);
        },
    };
    if fijar_inicio_validez(certificado, &inicio).is_err() {
        return Err(ErrorDTLSProtocolo::ErrorGenerandoCertificado);
    }
    let fin = match dias_desde_hoy(dias_validos) {
        Ok(t) => t,
        Err(_) => {
            return Err(ErrorDTLSProtocolo::ErrorGenerandoCertificado);
        },
    };
    if fijar_fin_validez(certificado, &fin).is_err() {
        return Err(ErrorDTLSProtocolo::ErrorGenerandoCertificado);
    }
    Ok(())
}

fn crear_constructor_certificado(
    nombre: &X509Name,
    clave: &PKey<Private>,
    version: i32,
    constructor: &mut X509Builder,
) -> (r: Result<(), ErrorDTLSProtocolo>)
    ensures
        r matches Err(e) ==> e is ErrorGenerandoCertificado,
{
    if fijar_version(constructor, version).is_err() {
        return Err(ErrorDTLSProtocolo::ErrorGenerandoCertificado);
    }
    if fijar_sujeto(constructor, nombre).is_err() {
        return Err(ErrorDTLSProtocolo::ErrorGenerandoCertificado);
    }
    if fijar_emisor(constructor, nombre).is_err() {
        return Err(ErrorDTLSProtocolo::ErrorGenerandoCertificado);
    }
    if fijar_clave_publica(constructor, clave).is_err() {
        return Err(ErrorDTLSProtocolo::ErrorGenerandoCertificado);
    }
    Ok(())
}

/// Genera un certificado DTLS autofirmado junto con su clave privada y un
/// contenedor PKCS#12 con ambos, con los parámetros de
/// [`parametros_certificado_dtls`]; el certificado se firma con SHA-256.
/// La clave es aleatoria y OpenSSL decide si cada paso falla: de un
/// resultado correcto se afirma que el certificado (en DER) y el contenedor
/// no son vacíos.
pub fn generar_certificado_dtls() -> (r: Result<
    (CertificadoDTLS, PKey<Private>, Vec<u8>),
    ErrorDTLSProtocolo,
>)
    ensures
        r matches Err(e) ==> e is ErrorGenerandoCertificado,
        r matches Ok((c, _, p)) ==> c@.len() > 0 && p@.len() > 0,
{
    let parametros = parametros_certificado_dtls();
    proof {
        reveal_strlit("CN");
        reveal_strlit("localhost");
        reveal_strlit("1234");
    }
    let clave = generar_clave_pkey(parametros.bits_rsa)?;
    let nombre = construir_nombre_certificado(parametros.campo_nombre, parametros.valor_nombre)?;
    let mut constructor = match nuevo_constructor_x509() {
        Ok(c) => c,
        Err(_) => {
            return Err(ErrorDTLSProtocolo::ErrorGenerandoCertificado);
        },
    };
    crear_constructor_certificado(&nombre, &clave, parametros.version, &mut constructor)?;
    setear_validez_certificado(&mut constructor, parametros.dias_validez)?;
    if firmar_sha256(&mut constructor, &clave).is_err() {
        return Err(ErrorDTLSProtocolo::ErrorGenerandoCertificado);
    }
    let der = match der_de_x509(construir_x509(constructor)) {
        Ok(d) => d,
        Err(_) => {
            return Err(ErrorDTLSProtocolo::ErrorGenerandoCertificado);
        },
    };
    let certificado = CertificadoDTLS::desde_der(der);
    let pkcs12 = generar_pkcs12(&certificado, &clave, parametros.contrasena_pkcs12)?;
    Ok((certificado, clave, pkcs12))
}

/// Genera un contenedor PKCS#12 (en DER) con el certificado y su clave
/// privada, con el nombre de [`parametros_certificado_dtls`] (`rtc-peer`) y
/// protegido con la contraseña dada, que no puede tener caracteres nulos.
/// OpenSSL decide si falla (y el contenedor tiene un salt aleatorio): de un
/// resultado correcto se afirma que no es vacío.
pub fn generar_pkcs12(
    certificado: &CertificadoDTLS,
    clave_privada: &PKey<Private>,
    contrasena: &str,
) -> (r: Result<Vec<u8>, ErrorDTLSProtocolo>)
    requires
        !contrasena@.contains('\0'),
    ensures
        r matches Err(e) ==> e is ErrorGenerandoCertificado,
        r matches Ok(v) ==> v@.len() > 0,
{
    let x509 = match x509_desde_der(certificado.der().as_slice()) {
        Ok(x) => x,
        Err(_) => {
            return Err(ErrorDTLSProtocolo::ErrorGenerandoCertificado);
        },
    };
    let nombre = parametros_certificado_dtls().nombre_pkcs12;
    proof {
        reveal_strlit("rtc-peer");
    }
    let pkcs12 = match armar_pkcs12(&x509, clave_privada, nombre, contrasena) {
        Ok(p) => p,
        Err(_) => {
            return Err(ErrorDTLSProtocolo::ErrorGenerandoCertificado);
        },
    };
    match pkcs12_a_der(&pkcs12) {
        Ok(v) => Ok(v),
        Err(_) => Err(ErrorDTLSProtocolo::ErrorGenerandoCertificado),
    }
}

fn digito_hex_exec(n: u8) -> (c: char)
    requires
        n < 16,
    ensures
        c == digito_hex(n),
{
    if n < 10 {
        (48 + n) as char
    } else {
        (55 + n) as char
    }
}

/// Convierte una huella a formato SDP: bytes en hexadecimal en mayúscula
/// separados por `:`.
pub fn convertir_huella_a_formato_sdp(huella: &[u8]) -> (r: String)
    ensures
        r@ == huella_sdp(huella@),
{
    let mut v: Vec<char> = Vec::new();
    let mut i: usize = 0;
    assert(huella@.take(0) =~= Seq::<u8>::empty());
    while i < huella.len()
        invariant
            i <= huella@.len(),
            v@ == huella_sdp(huella@.take(i as int)),
        decreases huella@.len() - i,
    {
        let b = huella[i];
        let ghost previo = v@;
        assert(huella@.take(i + 1).drop_last() =~= huella@.take(i as int));
        assert(huella@.take(i + 1).last() == b);
        if i > 0 {
            v.push(':');
        }
        v.push(digito_hex_exec(b / 16));
        v.push(digito_hex_exec(b % 16));
        if i == 0 {
            assert(v@ =~= hex_byte(b));
        } else {
            assert(v@ =~= previo + seq![':'] + hex_byte(b));
        }
        i = i + 1;
    }
    assert(huella@.take(i as int) =~= huella@);
    texto_desde(v.as_slice())
}

/// Calcula la huella SHA-256 de un certificado DTLS.
pub fn calcular_fingerprint(certificado: &CertificadoDTLS) -> (r: Result<
    Vec<u8>,
    ErrorDTLSProtocolo,
>)
    ensures
        match sha256_certificado(certificado@) {
            Some(h) => r matches Ok(v) && v@ == h && v@.len() == 32,
            None => r == Err::<Vec<u8>, ErrorDTLSProtocolo>(
                ErrorDTLSProtocolo::ErrorCertificadoInvalido,
            ),
        },
{
    match huella_sha256(certificado.der().as_slice()) {
        Ok(bytes) => Ok(bytes),
        Err(_) => Err(ErrorDTLSProtocolo::ErrorCertificadoInvalido),
    }
}

/// Obtiene la huella SHA-256 del certificado en formato SDP.
pub fn obtener_huella_certificado_para_sdp(certificado: &CertificadoDTLS) -> (r: Result<
    String,
    ErrorDTLSProtocolo,
>)
    ensures
        match sha256_certificado(certificado@) {
            Some(h) => r matches Ok(s) && s@ == huella_sdp(h) && h.len() == 32,
            None => r == Err::<String, ErrorDTLSProtocolo>(
                ErrorDTLSProtocolo::ErrorCertificadoInvalido,
            ),
        },
{
    let huella = calcular_fingerprint(certificado)?;
    Ok(convertir_huella_a_formato_sdp(huella.as_slice()))
}

/// Arma la línea SDP `a=fingerprint:SHA-256 <huella>`.
pub fn linea_fingerprint_desde_huella(huella: &str) -> (r: String)
    ensures
        r@ == linea_fingerprint(huella@),
{
    let mut v = caracteres("a=fingerprint:SHA-256 ");
    let h = caracteres(huella);
    let mut i: usize = 0;
    let ghost inicial = v@;
    while i < h.len()
        invariant
            i <= h@.len(),
            inicial == "a=fingerprint:SHA-256 "@,
            v@ == inicial + h@.take(i as int),
        decreases h@.len() - i,
    {
        assert(h@.take(i + 1) =~= h@.take(i as int).push(h@[i as int]));
        v.push(h[i]);
        i = i + 1;
    }
    assert(h@.take(i as int) =~= h@);
    texto_desde(v.as_slice())
}

/// Construye la línea SDP con la huella del certificado DTLS.
pub fn construir_linea_fingerprint_sdp(certificado: &CertificadoDTLS) -> (r: Result<
    String,
    ErrorDTLSProtocolo,
>)
    ensures
        match sha256_certificado(certificado@) {
            Some(h) => r matches Ok(s) && s@ == linea_fingerprint(huella_sdp(h)),
            None => r == Err::<String, ErrorDTLSProtocolo>(
                ErrorDTLSProtocolo::ErrorCertificadoInvalido,
            ),
        },
{
    let huella_formateada = obtener_huella_certificado_para_sdp(certificado)?;
    Ok(linea_fingerprint_desde_huella(huella_formateada.as_str()))
}

/// Agrega a cada media de la descripción SDP el atributo `setup`:
/// `actpass` para quien ofrece, `active` para quien responde.
pub fn agregar_atributo_setup_dtls(sdp: &mut DescripcionDeSesion, es_offerer: bool)
    ensures
        atributos_de(*final(sdp)).len() == atributos_de(*old(sdp)).len(),
        forall|k: int|
            0 <= k < atributos_de(*old(sdp)).len() ==> #[trigger] atributos_de(*final(sdp))[k]
                == atributos_de(*old(sdp))[k].push(atributo_setup(es_offerer)),
{
    let valor = if es_offerer {
        texto_desde(caracteres("a=setup:actpass").as_slice())
    } else {
        texto_desde(caracteres("a=setup:active").as_slice())
    };
    sdp.agregar_atributo_a_cada_media(&valor);
}

/// Compara la huella local con la recibida en SDP, normalizada sin espacios
/// y en mayúsculas.
pub fn comparar_huellas(huella_local: String, huella_recibida_sdp: &str) -> (r: Result<
    (),
    ErrorDTLSProtocolo,
>)
    ensures
        huella_local@ == mayusculas_texto(recortar(huella_recibida_sdp@)) ==> r is Ok,
        huella_local@ != mayusculas_texto(recortar(huella_recibida_sdp@)) ==> (r matches Err(
            ErrorDTLSProtocolo::ErrorFingerprintNoCoincide { esperado, recibido },
        ) && esperado@ == huella_local@ && recibido@ == mayusculas_texto(
            recortar(huella_recibida_sdp@),
        )),
{
    let recibida = caracteres(huella_recibida_sdp);
    let recortada = texto_desde(recortar_caracteres(recibida.as_slice()).as_slice());
    let normalizada = a_mayusculas(recortada.as_str());
    let local = caracteres(huella_local.as_str());
    let otra = caracteres(normalizada.as_str());
    if mismos_caracteres(local.as_slice(), otra.as_slice()) {
        Ok(())
    } else {
        Err(
            ErrorDTLSProtocolo::ErrorFingerprintNoCoincide {
                esperado: huella_local,
                recibido: normalizada,
            },
        )
    }
}

/// Valida que la huella recibida en SDP coincida con la del certificado DTLS.
pub fn validar_fingerprint_dtls(certificado: &CertificadoDTLS, huella_recibida_sdp: &str) -> (r:
    Result<(), ErrorDTLSProtocolo>)
    ensures
        match sha256_certificado(certificado@) {
            Some(h) => {
                let recibida = mayusculas_texto(recortar(huella_recibida_sdp@));
                &&& huella_sdp(h) == recibida ==> r is Ok
                &&& huella_sdp(h) != recibida ==> (r matches Err(
                    ErrorDTLSProtocolo::ErrorFingerprintNoCoincide { esperado, recibido },
                ) && esperado@ == huella_sdp(h) && recibido@ == recibida)
            },
            None => r == Err::<(), ErrorDTLSProtocolo>(ErrorDTLSProtocolo::ErrorCertificadoInvalido),
        },
{
    let huella_calculada_local = obtener_huella_certificado_para_sdp(certificado)?;
    comparar_huellas(huella_calculada_local, huella_recibida_sdp)
}

/// Lee la huella de una línea SDP `a=fingerprint:SHA-256 <huella>` y la
/// devuelve en mayúsculas.
pub fn parsear_fingerprint_remoto(linea: &str) -> (r: Result<String, ErrorDTLSProtocolo>)
    ensures
        match (r, fingerprint_leido(linea@)) {
            (Ok(s), Ok(t)) => s@ == t,
            (Err(e), Err(f)) => e == f,
            _ => false,
        },
{
    let texto = caracteres(linea);
    let prefijo = caracteres("a=fingerprint:");
    if !empieza_con(texto.as_slice(), prefijo.as_slice()) {
        return Err(ErrorDTLSProtocolo::ErrorFingerprintInvalida);
    }
    let huella = slice_a_vec(texto.as_slice(), prefijo.len(), texto.len());
    assert(huella@ =~= linea@.skip(prefijo_fingerprint().len() as int));
    let partes = separar_palabras(huella.as_slice());
    if partes.len() == 0 {
        return Err(ErrorDTLSProtocolo::ErrorFingerprintInvalida);
    }
    assert(partes@[0]@ == palabras(huella@)[0]);
    let algoritmo = a_mayusculas(texto_desde(partes[0].as_slice()).as_str());
    let sha = caracteres("SHA-256");
    if !mismos_caracteres(caracteres(algoritmo.as_str()).as_slice(), sha.as_slice()) {
        return Err(ErrorDTLSProtocolo::ErrorFingerprintAlgoritmoNoSoportado);
    }
    if partes.len() != 2 {
        return Err(ErrorDTLSProtocolo::ErrorFingerprintInvalida);
    }
    assert(partes@[1]@ == palabras(huella@)[1]);
    let valor = texto_desde(recortar_caracteres(partes[1].as_slice()).as_slice());
    Ok(a_mayusculas(valor.as_str()))
}

/// Lee el valor del atributo `setup` (con o sin el prefijo `a=setup:`) y lo
/// devuelve en minúsculas si es `active`, `passive` o `actpass`.
pub fn parsear_setup_dtls(linea: &str) -> (r: Result<String, ErrorDTLSProtocolo>)
    ensures
        setup_valido(setup_normalizado(linea@)) ==> (r matches Ok(s) && s@ == setup_normalizado(
            linea@,
        )),
        !setup_valido(setup_normalizado(linea@)) ==> r matches Err(
            ErrorDTLSProtocolo::ErrorSetupInvalido,
        ),
{
    let texto = recortar_caracteres(caracteres(linea).as_slice());
    let prefijo = caracteres("a=setup:");
    let valor = if empieza_con(texto.as_slice(), prefijo.as_slice()) {
        let resto = slice_a_vec(texto.as_slice(), prefijo.len(), texto.len());
        assert(resto@ =~= recortar(linea@).skip(prefijo_setup().len() as int));
        let resto = texto_desde(recortar_caracteres(resto.as_slice()).as_slice());
        a_minusculas(resto.as_str())
    } else {
        a_minusculas(texto_desde(texto.as_slice()).as_str())
    };
    let v = caracteres(valor.as_str());
    if mismos_caracteres(v.as_slice(), caracteres("active").as_slice()) || mismos_caracteres(
        v.as_slice(),
        caracteres("passive").as_slice(),
    ) || mismos_caracteres(v.as_slice(), caracteres("actpass").as_slice()) {
        Ok(valor)
    } else {
        Err(ErrorDTLSProtocolo::ErrorSetupInvalido)
    }
}

/// Determina el rol DTLS a partir del `setup` del otro extremo y de si
/// este extremo hizo la oferta.
pub fn determinar_rol_dtls_desde_setup(setup: &str, soy_offer: bool) -> (r: Result<
    RolDtls,
    ErrorDTLSProtocolo,
>)
    ensures
        r == rol_desde_setup(setup@, soy_offer),
{
    let s = caracteres(setup);
    if mismos_caracteres(s.as_slice(), caracteres("active").as_slice()) {
        if soy_offer {
            Ok(RolDtls::Servidor)
        } else {
            Err(ErrorDTLSProtocolo::ErrorSetupInvalido)
        }
    } else if mismos_caracteres(s.as_slice(), caracteres("passive").as_slice()) {
        if soy_offer {
            Ok(RolDtls::Cliente)
        } else {
            Err(ErrorDTLSProtocolo::ErrorSetupInvalido)
        }
    } else if mismos_caracteres(s.as_slice(), caracteres("actpass").as_slice()) {
        if soy_offer {
            Ok(RolDtls::Servidor)
        } else {
            Ok(RolDtls::Cliente)
        }
    } else {
        Err(ErrorDTLSProtocolo::ErrorSetupInvalido)
    }
}

/// Caracteres que aparecen en una huella en formato SDP.
pub open spec fn caracter_de_huella(c: char) -> bool {
    ('0' <= c && c <= '9') || ('A' <= c && c <= 'F') || c == ':'
}

pub proof fn lema_caracteres_de_huella(h: Seq<u8>)
    ensures
        forall|i: int| 0 <= i < huella_sdp(h).len() ==> caracter_de_huella(#[trigger] huella_sdp(h)[i]),
        h.len() > 0 ==> huella_sdp(h).len() > 0,
    decreases h.len(),
{
    if h.len() > 1 {
        lema_caracteres_de_huella(h.drop_last());
        let a = huella_sdp(h.drop_last());
        let b = hex_byte(h.last());
        assert(huella_sdp(h) == a + seq![':'] + b);
        assert forall|i: int| 0 <= i < huella_sdp(h).len() implies caracter_de_huella(
            #[trigger] huella_sdp(h)[i],
        ) by {
            if i < a.len() {
                assert(huella_sdp(h)[i] == a[i]);
            } else if i == a.len() {
                assert(huella_sdp(h)[i] == ':');
            } else {
                assert(huella_sdp(h)[i] == b[i - a.len() - 1]);
            }
        }
    }
}

/// Una huella en formato SDP no tiene espacios ni minúsculas.
proof fn lema_huella_sin_espacios_ni_minusculas(h: Seq<u8>)
    ensures
        sin_espacios(huella_sdp(h)),
        forall|i: int| 0 <= i < huella_sdp(h).len() ==> ascii_sin_minuscula(#[trigger] huella_sdp(h)[i]),
{
    lema_caracteres_de_huella(h);
    let x = huella_sdp(h);
    assert forall|i: int| 0 <= i < x.len() implies !espacio_en_blanco(#[trigger] x[i]) by {
        assert(caracter_de_huella(x[i]));
    }
    assert forall|i: int| 0 <= i < x.len() implies ascii_sin_minuscula(#[trigger] x[i]) by {
        assert(caracter_de_huella(x[i]));
    }
}

/// La huella de un certificado (con al menos un byte) escrita en la línea
/// `a=fingerprint` se lee tal cual del otro lado, y la validación acepta lo
/// leído contra la misma huella. Con los contratos de
/// `construir_linea_fingerprint_sdp` (que escribe `linea_fingerprint(huella_sdp(h))`
/// para el SHA-256 `h` del certificado, de 32 bytes), `parsear_fingerprint_remoto`
/// (que devuelve `fingerprint_leido`) y `validar_fingerprint_dtls` (que acepta
/// cuando `huella_sdp(h)` es el texto recortado en mayúsculas), la cadena
/// construir, parsear y validar termina en `Ok`.
pub proof fn ley_huella_escrita_y_leida(h: Seq<u8>)
    requires
        h.len() > 0,
    ensures
        fingerprint_leido(linea_fingerprint(huella_sdp(h))) == Ok::<Seq<char>, ErrorDTLSProtocolo>(
            huella_sdp(h),
        ),
        mayusculas_texto(recortar(huella_sdp(h))) == huella_sdp(h),
{
    reveal_strlit("a=fingerprint:SHA-256 ");
    reveal_strlit("a=fingerprint:");
    reveal_strlit("SHA-256");
    let x = huella_sdp(h);
    lema_caracteres_de_huella(h);
    lema_huella_sin_espacios_ni_minusculas(h);
    lema_recortar_sin_espacios(x);
    let linea = linea_fingerprint(x);
    let p = prefijo_fingerprint();
    let alg = "SHA-256"@;
    assert(linea =~= p + alg + seq![' '] + x);
    assert(linea.take(p.len() as int) =~= p);
    assert(linea.skip(p.len() as int) =~= alg + seq![' '] + x);
    assert(sin_espacios(alg));
    lema_palabras_dos(alg, x);
    assert forall|i: int| 0 <= i < alg.len() implies ascii_sin_minuscula(#[trigger] alg[i]) by {}
    lema_mayusculas_sin_minusculas(alg);
    lema_mayusculas_sin_minusculas(x);
}

} // verus!
