use room_rtc_2c_25::seguridad::dtls_protocolo::errores::ErrorDTLSProtocolo;
use room_rtc_2c_25::seguridad::srtp::errores::ErrorSRTP;

#[test]
fn texto_de_errores_dtls() {
    assert_eq!(
        ErrorDTLSProtocolo::ErrorFingerprintNoCoincide {
            esperado: "AA:BB".to_string(),
            recibido: "CC:DD".to_string(),
        }
        .a_texto(),
        "ERROR: La fingerprint no coincide. Esperado: AA:BB, Recibido: CC:DD"
    );
    assert_eq!(
        ErrorDTLSProtocolo::ErrorAnswererConActpass.a_texto(),
        "ERROR: El answerer no puede tener el valor 'actpass' en setup DTLS"
    );
    assert_eq!(
        ErrorDTLSProtocolo::ErrorSetupInexistente.a_texto(),
        "ERROR: No se encontró el valor de setup DTLS en la descripción de sesión"
    );
    assert_eq!(
        ErrorDTLSProtocolo::ErrorIniciarPostDTLS.a_texto(),
        "ERROR: Fallo al iniciar la fase post-DTLS"
    );
}

#[test]
fn texto_de_errores_srtp() {
    assert_eq!(
        ErrorSRTP::ErrorReplay("indice 7".to_string()).a_texto(),
        "ERROR SRTP: Paquete repetido detectado - indice 7"
    );
    assert_eq!(
        ErrorSRTP::ErrorHMAC("tag".to_string()).a_texto(),
        "ERROR SRTP: Error durante el cálculo/verificación HMAC - tag"
    );
    assert_eq!(
        ErrorSRTP::ErrorInterno(String::new()).a_texto(),
        "ERROR SRTP: Error interno - "
    );
}
