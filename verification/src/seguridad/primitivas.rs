//! Primitivas criptográficas de OpenSSL usadas por SRTP: AES-128 en modo
//! contador y HMAC-SHA1.
use vstd::prelude::*;
use openssl::error::ErrorStack;

verus! {

#[verifier::external_type_specification]
#[verifier::external_body]
pub struct ExErrorStack(ErrorStack);

/// Texto cifrado que produce AES-128-CTR con la clave, el IV y los datos dados.
pub uninterp spec fn aes_128_ctr_cifrado(clave: Seq<u8>, iv: Seq<u8>, datos: Seq<u8>) -> Seq<u8>;

/// Texto claro que produce el descifrado AES-128-CTR con la clave, el IV y los datos dados.
pub uninterp spec fn aes_128_ctr_descifrado(clave: Seq<u8>, iv: Seq<u8>, datos: Seq<u8>) -> Seq<u8>;

/// Código de autenticación HMAC-SHA1 de los datos con la clave dada.
pub uninterp spec fn hmac_sha1(clave: Seq<u8>, datos: Seq<u8>) -> Seq<u8>;

/// Llama a `openssl::symm::encrypt` con el cifrador AES-128-CTR.
/// Se confía en que, cuando OpenSSL no falla, el resultado es el cifrado
/// AES-128-CTR de `datos` (función de la clave, el IV y los datos) y tiene
/// tantos bytes como `datos`: el modo contador cifra byte a byte (tamaño de
/// bloque 1, sin relleno al finalizar). No se afirma nada sobre cuándo falla. Con datos de más de `i32::MAX` bytes la
/// llamada entra en pánico, por eso se exigen datos más cortos.
#[verifier::external_body]
pub(crate) fn cifrar_aes_128_ctr(clave: &[u8], iv: &[u8], datos: &[u8]) -> (r: Result<
    Vec<u8>,
    ErrorStack,
>)
    requires
        clave@.len() == 16,
        iv@.len() == 16,
        datos@.len() < i32::MAX - 16,
    ensures
        r matches Ok(v) ==> v@ == aes_128_ctr_cifrado(clave@, iv@, datos@),
        r matches Ok(v) ==> v@.len() == datos@.len(),
{
    openssl::symm::encrypt(openssl::symm::Cipher::aes_128_ctr(), clave, Some(iv), datos)
}

/// Llama a `openssl::symm::decrypt` con el cifrador AES-128-CTR.
/// Se confía en que, cuando OpenSSL no falla, el resultado es el descifrado
/// AES-128-CTR de `datos`, tiene tantos bytes como `datos` (modo contador,
/// byte a byte), y en que descifrar con la misma clave e IV lo que
/// `openssl::symm::encrypt` cifró devuelve el texto claro de partida. No
/// se afirma nada sobre cuándo falla. Con datos de más de `i32::MAX` bytes
/// la llamada entra en pánico, por eso se exigen datos más cortos.
#[verifier::external_body]
pub(crate) fn descifrar_aes_128_ctr(clave: &[u8], iv: &[u8], datos: &[u8]) -> (r: Result<
    Vec<u8>,
    ErrorStack,
>)
    requires
        clave@.len() == 16,
        iv@.len() == 16,
        datos@.len() < i32::MAX - 16,
    ensures
        r matches Ok(v) ==> v@ == aes_128_ctr_descifrado(clave@, iv@, datos@),
        r matches Ok(v) ==> v@.len() == datos@.len(),
        r matches Ok(v) ==> forall|p: Seq<u8>|
            datos@ == #[trigger] aes_128_ctr_cifrado(clave@, iv@, p) ==> v@ == p,
{
    openssl::symm::decrypt(openssl::symm::Cipher::aes_128_ctr(), clave, Some(iv), datos)
}

/// Calcula HMAC-SHA1 de `datos` con `clave` mediante `openssl::pkey::PKey::hmac`,
/// `openssl::sign::Signer::new` (con `MessageDigest::sha1`), `Signer::update` y
/// `Signer::sign_to_vec`, que juntas forman un único cálculo de HMAC.
/// Se confía en que, cuando OpenSSL no falla, el resultado es el HMAC-SHA1 de
/// los datos (función de la clave y los datos), de 20 bytes (el tamaño de
/// un resumen SHA-1). No se afirma nada sobre cuándo falla.
#[verifier::external_body]
pub(crate) fn calcular_hmac_sha1(clave: &[u8], datos: &[u8]) -> (r: Result<Vec<u8>, ErrorStack>)
    requires
        clave@.len() <= i32::MAX,
    ensures
        r matches Ok(v) ==> v@ == hmac_sha1(clave@, datos@),
        r matches Ok(v) ==> v@.len() == 20,
{
    let pkey = openssl::pkey::PKey::hmac(clave)?;
    let mut signer = openssl::sign::Signer::new(openssl::hash::MessageDigest::sha1(), &pkey)?;
    signer.update(datos)?;
    signer.sign_to_vec()
}

} // verus!
