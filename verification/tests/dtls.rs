use room_rtc_2c_25::protocolos::sdp::{DescripcionDeMedia, DescripcionDeSesion};
use room_rtc_2c_25::seguridad::dtls_protocolo::certificado::CertificadoDTLS;
use room_rtc_2c_25::seguridad::dtls_protocolo::dtls_contexto::{
    etiqueta_exportacion_srtp, DtlsContexto, RolDtls,
};
use room_rtc_2c_25::seguridad::dtls_protocolo::dtls_utils::{
    agregar_atributo_setup_dtls, calcular_fingerprint, comparar_huellas, construir_linea_fingerprint_sdp,
    convertir_huella_a_formato_sdp, determinar_rol_dtls_desde_setup, generar_certificado_dtls,
    generar_pkcs12, parametros_certificado_dtls,
    linea_fingerprint_desde_huella, obtener_huella_certificado_para_sdp,
    parsear_fingerprint_remoto, parsear_setup_dtls, validar_fingerprint_dtls,
};
use room_rtc_2c_25::seguridad::dtls_protocolo::errores::ErrorDTLSProtocolo;
use room_rtc_2c_25::seguridad::srtp::claves_srtp::ClavesSRTPBrutas;

#[test]
fn test_generar_certificado_y_huella() {
    let (certificado, _key, _pkcs12) =
        generar_certificado_dtls().expect("Error generando certificado DTLS");
    let huella =
        obtener_huella_certificado_para_sdp(&certificado).expect("Error obteniendo huella");
    assert!(!huella.is_empty(), "La huella no debe estar vacía");
}

#[test]
fn test_convertir_huella_a_formato_sdp() {
    let huella_bytes = vec![0xAB, 0xCD, 0xEF, 0x01, 0x23];
    let huella_formateada = convertir_huella_a_formato_sdp(&huella_bytes);
    assert_eq!(huella_formateada, "AB:CD:EF:01:23");
}

#[test]
fn test_parsear_fingerprint_remoto_valido() {
    let linea = "a=fingerprint:SHA-256 AB:CD:EF:01:23";
    let huella = parsear_fingerprint_remoto(linea).expect("Error parseando fingerprint válido");
    assert_eq!(huella, "AB:CD:EF:01:23");
}

#[test]
fn test_parsear_fingerprint_remoto_invalido() {
    let linea_invalida = "a=fingerprint:SHA-1 AB:CD:EF:01:23";
    assert!(
        parsear_fingerprint_remoto(linea_invalida).is_err(),
        "Debería fallar al parsear fingerprint inválido"
    );
}

#[test]
fn test_parsear_fingerprint_con_espacios_extras() {
    let linea = "a=fingerprint:   SHA-256    AA:BB:CC:DD:EE";
    let huella = parsear_fingerprint_remoto(linea).unwrap();
    assert_eq!(huella, "AA:BB:CC:DD:EE");
}

#[test]
fn test_parsear_fingerprint_con_tabs() {
    let linea = "a=fingerprint:\tSHA-256\tAA:BB:CC";
    let huella = parsear_fingerprint_remoto(linea).unwrap();
    assert_eq!(huella, "AA:BB:CC");
}

#[test]
fn test_parsear_fingerprint_con_minusculas() {
    let linea = "a=fingerprint:SHA-256 aa:bb:cc:dd";
    let huella = parsear_fingerprint_remoto(linea).unwrap();
    assert_eq!(huella, "AA:BB:CC:DD");
}

#[test]
fn test_parsear_fingerprint_sin_prefijo() {
    let linea = "fingerprint:SHA-256 AB:CD";
    assert!(parsear_fingerprint_remoto(linea).is_err());
}

#[test]
fn test_parsear_fingerprint_sin_algoritmo() {
    let linea = "a=fingerprint: AB:CD:EF";
    assert!(parsear_fingerprint_remoto(linea).is_err());
}

#[test]
fn test_parsear_fingerprint_sin_valor() {
    let linea = "a=fingerprint:SHA-256 ";
    assert!(parsear_fingerprint_remoto(linea).is_err());
}

#[test]
fn test_parsear_fingerprint_algoritmo_incorrecto() {
    let linea = "a=fingerprint:SHA-1 AB:CD";
    assert!(parsear_fingerprint_remoto(linea).is_err());
}

#[test]
fn test_parsear_fingerprint_con_token_extra() {
    let linea = "a=fingerprint:SHA-256 AB:CD EF:12"; // demasiado tokens
    assert!(parsear_fingerprint_remoto(linea).is_err());
}

#[test]
fn test_cadena_completa_generar_parsear_validar() {
    let (cert, _key, _pkcs12) = generar_certificado_dtls().unwrap();
    let linea = construir_linea_fingerprint_sdp(&cert).unwrap();
    let huella = parsear_fingerprint_remoto(&linea).unwrap();
    assert!(validar_fingerprint_dtls(&cert, &huella).is_ok());
}

#[test]
fn huella_sdp_vacia_y_de_un_byte() {
    assert_eq!(convertir_huella_a_formato_sdp(&[]), "");
    assert_eq!(convertir_huella_a_formato_sdp(&[0x0F]), "0F");
    assert_eq!(convertir_huella_a_formato_sdp(&[0x00, 0xFF, 0x9A]), "00:FF:9A");
}

#[test]
fn huella_certificado_tiene_treinta_y_dos_bytes_en_sdp() {
    let (cert, _key, pkcs12) = generar_certificado_dtls().unwrap();
    let huella = obtener_huella_certificado_para_sdp(&cert).unwrap();
    // 32 bytes: 64 dígitos y 31 separadores
    assert_eq!(huella.len(), 95);
    assert!(!pkcs12.is_empty());
    let linea = construir_linea_fingerprint_sdp(&cert).unwrap();
    assert_eq!(linea, format!("a=fingerprint:SHA-256 {}", huella));
}

#[test]
fn linea_fingerprint_con_huella_dada() {
    assert_eq!(
        linea_fingerprint_desde_huella("AB:CD"),
        "a=fingerprint:SHA-256 AB:CD"
    );
}

#[test]
fn errores_de_parseo_de_fingerprint() {
    assert!(matches!(
        parsear_fingerprint_remoto("fingerprint:SHA-256 AB"),
        Err(ErrorDTLSProtocolo::ErrorFingerprintInvalida)
    ));
    assert!(matches!(
        parsear_fingerprint_remoto("a=fingerprint:SHA-1 AB"),
        Err(ErrorDTLSProtocolo::ErrorFingerprintAlgoritmoNoSoportado)
    ));
    assert!(matches!(
        parsear_fingerprint_remoto("a=fingerprint:sha-256 AB CD"),
        Err(ErrorDTLSProtocolo::ErrorFingerprintInvalida)
    ));
    assert_eq!(
        parsear_fingerprint_remoto("a=fingerprint:sha-256 ab:01").unwrap(),
        "AB:01"
    );
}

#[test]
fn comparar_huellas_normaliza_la_recibida() {
    assert!(comparar_huellas("AB:CD".to_string(), "  ab:cd \n").is_ok());
    match comparar_huellas("AB:CD".to_string(), " ab:ce ") {
        Err(ErrorDTLSProtocolo::ErrorFingerprintNoCoincide { esperado, recibido }) => {
            assert_eq!(esperado, "AB:CD");
            assert_eq!(recibido, "AB:CE");
        }
        otro => panic!("resultado inesperado: {:?}", otro),
    }
}

#[test]
fn validar_fingerprint_rechaza_huella_de_otro_certificado() {
    let (cert_a, _, _) = generar_certificado_dtls().unwrap();
    let (cert_b, _, _) = generar_certificado_dtls().unwrap();
    let huella_b = obtener_huella_certificado_para_sdp(&cert_b).unwrap();
    assert!(matches!(
        validar_fingerprint_dtls(&cert_a, &huella_b),
        Err(ErrorDTLSProtocolo::ErrorFingerprintNoCoincide { .. })
    ));
}

#[test]
fn parsear_setup_valores_validos_e_invalidos() {
    assert_eq!(parsear_setup_dtls("a=setup:actpass").unwrap(), "actpass");
    assert_eq!(parsear_setup_dtls("  a=setup: ACTIVE  ").unwrap(), "active");
    assert_eq!(parsear_setup_dtls("Passive").unwrap(), "passive");
    assert!(matches!(
        parsear_setup_dtls("a=setup:holdconn"),
        Err(ErrorDTLSProtocolo::ErrorSetupInvalido)
    ));
    assert!(matches!(
        parsear_setup_dtls(""),
        Err(ErrorDTLSProtocolo::ErrorSetupInvalido)
    ));
}

#[test]
fn rol_desde_setup_segun_quien_ofrece() {
    assert!(matches!(determinar_rol_dtls_desde_setup("active", true), Ok(RolDtls::Servidor)));
    assert!(matches!(
        determinar_rol_dtls_desde_setup("active", false),
        Err(ErrorDTLSProtocolo::ErrorSetupInvalido)
    ));
    assert!(matches!(determinar_rol_dtls_desde_setup("passive", true), Ok(RolDtls::Cliente)));
    assert!(matches!(
        determinar_rol_dtls_desde_setup("passive", false),
        Err(ErrorDTLSProtocolo::ErrorSetupInvalido)
    ));
    assert!(matches!(determinar_rol_dtls_desde_setup("actpass", true), Ok(RolDtls::Servidor)));
    assert!(matches!(determinar_rol_dtls_desde_setup("actpass", false), Ok(RolDtls::Cliente)));
    assert!(matches!(
        determinar_rol_dtls_desde_setup("otro", true),
        Err(ErrorDTLSProtocolo::ErrorSetupInvalido)
    ));
}

#[test]
fn atributo_setup_se_agrega_a_cada_media() {
    let mut m1 = DescripcionDeMedia::new();
    m1.agregar_atributo("a=rtpmap:96 H264/90000".to_string());
    let m2 = DescripcionDeMedia::new();
    let mut sdp = DescripcionDeSesion::new(vec![m1, m2]);
    agregar_atributo_setup_dtls(&mut sdp, true);
    assert_eq!(
        sdp.medias()[0].atributos(),
        &vec!["a=rtpmap:96 H264/90000".to_string(), "a=setup:actpass".to_string()]
    );
    assert_eq!(sdp.medias()[1].atributos(), &vec!["a=setup:actpass".to_string()]);

    let mut respuesta = DescripcionDeSesion::new(vec![DescripcionDeMedia::new()]);
    agregar_atributo_setup_dtls(&mut respuesta, false);
    assert_eq!(respuesta.medias()[0].atributos(), &vec!["a=setup:active".to_string()]);
}

#[test]
fn dividir_material_y_ordenar_por_rol() {
    let material: Vec<u8> = (0u8..60u8).collect();
    let brutas: ClavesSRTPBrutas = DtlsContexto::dividir_material_claves(&material);
    assert_eq!(brutas.client_key.to_vec(), (0u8..16u8).collect::<Vec<u8>>());
    assert_eq!(brutas.server_key.to_vec(), (16u8..32u8).collect::<Vec<u8>>());
    assert_eq!(brutas.client_salt.to_vec(), (32u8..46u8).collect::<Vec<u8>>());
    assert_eq!(brutas.server_salt.to_vec(), (46u8..60u8).collect::<Vec<u8>>());

    let cliente = DtlsContexto::ordenar_claves_por_rol(RolDtls::Cliente, &brutas).unwrap();
    assert_eq!(cliente.clave_tx, brutas.client_key.to_vec());
    assert_eq!(cliente.clave_rx, brutas.server_key.to_vec());
    assert_eq!(cliente.salt_tx, brutas.client_salt.to_vec());
    assert_eq!(cliente.salt_rx, brutas.server_salt.to_vec());

    let servidor = DtlsContexto::ordenar_claves_por_rol(RolDtls::Servidor, &brutas).unwrap();
    assert_eq!(servidor.clave_tx, brutas.server_key.to_vec());
    assert_eq!(servidor.clave_rx, brutas.client_key.to_vec());

    assert!(matches!(
        DtlsContexto::ordenar_claves_por_rol(RolDtls::Indefinido, &brutas),
        Err(ErrorDTLSProtocolo::ErrorRolNoEstablecido)
    ));
}

#[test]
fn contexto_dtls_guarda_rol_y_huella() {
    let mut ctx = DtlsContexto::new();
    assert_eq!(ctx.obtener_rol(), RolDtls::Indefinido);
    assert!(ctx.obtener_huella_remota().is_none());
    assert!(ctx.obtener_claves_srtp().is_none());
    ctx.establecer_rol(RolDtls::Cliente);
    ctx.guardar_huella_remota("AB:CD".to_string());
    assert_eq!(ctx.obtener_rol(), RolDtls::Cliente);
    assert_eq!(ctx.obtener_huella_remota().unwrap(), "AB:CD");
    ctx.setear_pkcs12_local(vec![1, 2, 3]);
    assert_eq!(ctx.obtener_pkcs12_local().unwrap(), &vec![1u8, 2, 3]);
    let (cert, key, _) = generar_certificado_dtls().unwrap();
    ctx.guardar_certificado_local(cert);
    ctx.guardar_clave_privada_local(key);
    assert!(ctx.obtener_certificado_local().is_some());
    assert!(ctx.obtener_clave_privada_local().is_some());
    assert!(ctx.obtener_certificado_remoto().is_none());
}

#[test]
fn calcular_fingerprint_da_treinta_y_dos_bytes() {
    let (cert, _key, _pkcs12) = generar_certificado_dtls().unwrap();
    let huella = calcular_fingerprint(&cert).unwrap();
    assert_eq!(huella.len(), 32);
    assert_eq!(calcular_fingerprint(&cert).unwrap(), huella);
}

#[test]
fn parsear_fingerprint_solo_prefijo_es_invalido() {
    assert!(matches!(
        parsear_fingerprint_remoto("a=fingerprint:"),
        Err(ErrorDTLSProtocolo::ErrorFingerprintInvalida)
    ));
    assert!(matches!(
        parsear_fingerprint_remoto("a=fingerprint:   \t "),
        Err(ErrorDTLSProtocolo::ErrorFingerprintInvalida)
    ));
}

#[test]
fn huella_de_bytes_que_no_son_certificado() {
    let falso = CertificadoDTLS::desde_der(vec![1, 2, 3]);
    assert_eq!(falso.der(), &vec![1u8, 2, 3]);
    assert!(matches!(
        calcular_fingerprint(&falso),
        Err(ErrorDTLSProtocolo::ErrorCertificadoInvalido)
    ));
    assert!(matches!(
        validar_fingerprint_dtls(&falso, "AA"),
        Err(ErrorDTLSProtocolo::ErrorCertificadoInvalido)
    ));
}

#[test]
fn huella_depende_solo_del_der() {
    let (cert, _key, _pkcs12) = generar_certificado_dtls().unwrap();
    let copia = CertificadoDTLS::desde_der(cert.der().clone());
    assert_eq!(calcular_fingerprint(&cert).unwrap(), calcular_fingerprint(&copia).unwrap());
    let huella = obtener_huella_certificado_para_sdp(&cert).unwrap();
    match validar_fingerprint_dtls(&copia, " aa:bb ") {
        Err(ErrorDTLSProtocolo::ErrorFingerprintNoCoincide { esperado, recibido }) => {
            assert_eq!(esperado, huella);
            assert_eq!(recibido, "AA:BB");
        }
        otro => panic!("resultado inesperado: {:?}", otro),
    }
}

#[test]
fn pkcs12_con_otra_contrasena_no_es_vacio() {
    let (cert, key, pkcs12) = generar_certificado_dtls().unwrap();
    assert!(!pkcs12.is_empty());
    assert!(!cert.der().is_empty());
    assert!(!generar_pkcs12(&cert, &key, "otra").unwrap().is_empty());
}

#[test]
fn parametros_del_certificado_dtls() {
    let p = parametros_certificado_dtls();
    assert_eq!(p.bits_rsa, 2048);
    assert_eq!(p.campo_nombre, "CN");
    assert_eq!(p.valor_nombre, "localhost");
    assert_eq!(p.version, 2);
    assert_eq!(p.dias_validez, 365);
    assert_eq!(p.nombre_pkcs12, "rtc-peer");
    assert_eq!(p.contrasena_pkcs12, "1234");
}

#[test]
fn etiqueta_de_exportacion_de_claves_srtp() {
    assert_eq!(etiqueta_exportacion_srtp(), "EXTRACTOR-dtls_srtp");
}

#[test]
fn setup_se_pasa_a_minusculas() {
    assert_eq!(parsear_setup_dtls("a=setup:ACTPASS").unwrap(), "actpass");
}
