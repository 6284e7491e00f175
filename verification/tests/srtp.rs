use room_rtc_2c_25::seguridad::srtp::errores::ErrorSRTP;
use room_rtc_2c_25::seguridad::srtp::srtp_contexto::{EstadisticasSRTP, SRTPContexto};

fn contexto_srtp_prueba_basico() -> SRTPContexto {
    let clave = vec![0u8; 16];
    let salt = vec![0u8; 14];
    SRTPContexto::new(clave, salt)
}

#[test]
fn test_new_inicializa_campos_en_cero() {
    let ctx = contexto_srtp_prueba_basico();
    let estadisticas = EstadisticasSRTP::default();

    assert_eq!(estadisticas.roc, 0);
    assert_eq!(estadisticas.seq_mas_alto, 0);
    assert_eq!(estadisticas.replay_window, 0);
    assert_eq!(ctx.clave_salt.clave.len(), 16);
    assert_eq!(ctx.clave_salt.salt.len(), 14);
}

#[test]
fn test_derivar_iv_formato_basico_y_dependencia_de_campos() {
    let clave: Vec<u8> = (0u8..16u8).collect();
    let salt: Vec<u8> = (1u8..15u8).collect();

    let ctx = SRTPContexto::new(clave, salt.clone());

    let ssrc = 0x11223344;
    let indice_paquete = 0x0000_0000_0000_A1B2u64;

    let iv = ctx.derivar_iv(ssrc, indice_paquete).unwrap();

    assert_eq!(iv.len(), 16);
    assert_eq!(iv[0], 0);
    assert_eq!(iv[1], 0);
    assert_eq!(&iv[2..4], &salt[0..2]);

    let iv_otro_indice = ctx.derivar_iv(ssrc, indice_paquete + 1).unwrap();
    assert_ne!(iv, iv_otro_indice);

    let iv_otro_ssrc = ctx.derivar_iv(0x55667788, indice_paquete).unwrap();
    assert_ne!(iv, iv_otro_ssrc);
}

#[test]
fn test_derivar_iv_falla_con_salt_invalido() {
    let clave = vec![0u8; 16];
    let salt_invalido = vec![0u8; 13];
    let ctx = SRTPContexto::new(clave, salt_invalido);

    let res = ctx.derivar_iv(0x12345678, 1);
    assert!(matches!(res, Err(ErrorSRTP::ErrorClaveSaltInvalida(_))));
}

#[test]
fn test_proteger_y_desproteger_rtp_roundtrip() {
    let clave: Vec<u8> = (0u8..16u8).collect();
    let salt: Vec<u8> = (100u8..114u8).collect();

    let mut ctx_tx = SRTPContexto::new(clave.clone(), salt.clone());
    let mut ctx_rx = SRTPContexto::new(clave, salt);

    let ssrc = 0x12345678;

    let mut paquete_rtp: Vec<u8> = vec![
        0x80, 0x60, 0x00, 0x01, 0x00, 0x00, 0x00, 0x01, 0x12, 0x34, 0x56, 0x78,
    ];
    let payload_original: Vec<u8> = vec![0x10, 0x20, 0x30, 0x40, 0x50];
    paquete_rtp.extend_from_slice(&payload_original);

    let len_original_rtp = paquete_rtp.len();

    ctx_tx
        .proteger_y_firmar_rtp(ssrc, &mut paquete_rtp)
        .expect("Error protegiendo RTP en TX");

    assert_eq!(paquete_rtp.len(), len_original_rtp + 10);

    let payload_cifrado = &paquete_rtp[12..len_original_rtp];
    assert_ne!(payload_cifrado, &payload_original[..]);

    ctx_rx
        .verificar_y_desproteger_rtp(ssrc, &mut paquete_rtp)
        .expect("Error verificando/descifrando SRTP en RX");

    assert_eq!(paquete_rtp.len(), len_original_rtp);

    assert_eq!(
        &paquete_rtp[0..12],
        &[0x80, 0x60, 0x00, 0x01, 0x00, 0x00, 0x00, 0x01, 0x12, 0x34, 0x56, 0x78]
    );

    assert_eq!(&paquete_rtp[12..], &payload_original[..]);
}

#[test]
fn test_verificar_replay_y_actualizar_rechaza_repetidos() {
    let mut ctx = contexto_srtp_prueba_basico();

    ctx.verificar_replay_y_actualizar(1, 1)
        .expect("El primer índice debería aceptarse");
    let estadisticas = ctx.estadisticas_ssrc.get(&1).unwrap();
    assert_eq!(estadisticas.replay_window, 1);

    let res = ctx.verificar_replay_y_actualizar(1, 1);
    assert!(matches!(res, Err(ErrorSRTP::ErrorReplay(_))));
}

#[test]
fn test_verificar_replay_y_actualizar_fuera_de_ventana() {
    let mut ctx = contexto_srtp_prueba_basico();

    ctx.verificar_replay_y_actualizar(1, 100)
        .expect("Índice 100 debería aceptarse");

    let res = ctx.verificar_replay_y_actualizar(1, 100 - 64);
    assert!(matches!(res, Err(ErrorSRTP::ErrorReplay(_))));
}

#[test]
fn test_verificar_y_desproteger_rtp_falla_con_hmac_invalido() {
    let clave: Vec<u8> = (0u8..16u8).collect();
    let salt: Vec<u8> = (50u8..64u8).collect();

    let mut ctx_tx = SRTPContexto::new(clave.clone(), salt.clone());
    let mut ctx_rx = SRTPContexto::new(clave, salt);

    let ssrc = 0xCAFEBABE;

    let mut paquete_rtp: Vec<u8> = vec![
        0x80, 0x60, 0x00, 0x02, 0x00, 0x00, 0x00, 0x02, 0xCA, 0xFE, 0xBA, 0xBE,
    ];
    paquete_rtp.extend_from_slice(&[0xAA, 0xBB, 0xCC, 0xDD]);

    ctx_tx
        .proteger_y_firmar_rtp(ssrc, &mut paquete_rtp)
        .expect("Error protegiendo RTP en TX");

    let last_index = paquete_rtp.len() - 1;
    paquete_rtp[last_index] ^= 0xFF;

    let res = ctx_rx.verificar_y_desproteger_rtp(ssrc, &mut paquete_rtp);
    assert!(matches!(res, Err(ErrorSRTP::ErrorHMAC(_))));
}

#[test]
fn test_descifrar_rtp_solo_sobre_payload() {
    let clave: Vec<u8> = (0u8..16u8).collect();
    let salt: Vec<u8> = (10u8..24u8).collect();

    let mut ctx = SRTPContexto::new(clave, salt);

    let ssrc = 0x01020304;

    let mut paquete: Vec<u8> = vec![
        0x80, 0x60, 0x00, 0x10, 0x00, 0x00, 0x00, 0x10, 0x01, 0x02, 0x03, 0x04,
    ];
    let payload_original = vec![1u8, 2, 3, 4, 5, 6];
    paquete.extend_from_slice(&payload_original);

    let seq = 0x0010;
    let indice_paquete = ctx.calcular_indice_paquete(ssrc, seq).unwrap();

    ctx.proteger_rtp(ssrc, &mut paquete)
        .expect("No se pudo cifrar RTP");

    let payload_cifrado = paquete[12..].to_vec();
    assert_ne!(payload_cifrado, payload_original);

    ctx.descifrar_rtp(ssrc, indice_paquete, &mut paquete)
        .expect("No se pudo descifrar RTP");

    assert_eq!(&paquete[12..], &payload_original[..]);
}

#[test]
fn paquete_protegido_se_acepta_una_sola_vez() {
    let clave: Vec<u8> = (0u8..16u8).collect();
    let salt: Vec<u8> = (100u8..114u8).collect();
    let mut ctx_tx = SRTPContexto::new(clave.clone(), salt.clone());
    let mut ctx_rx = SRTPContexto::new(clave, salt);
    let original = vec![0x80, 0x60, 0x00, 0x05, 0, 0, 0, 9, 0x12, 0x34, 0x56, 0x78, 1, 2, 3, 4];
    let mut srtp = original.clone();
    ctx_tx.proteger_y_firmar_rtp(0x12345678, &mut srtp).unwrap();
    assert_eq!(srtp.len(), original.len() + 10);
    let mut primera = srtp.clone();
    ctx_rx.verificar_y_desproteger_rtp(0x12345678, &mut primera).unwrap();
    assert_eq!(primera, original);
    let mut segunda = srtp.clone();
    let res = ctx_rx.verificar_y_desproteger_rtp(0x12345678, &mut segunda);
    assert!(matches!(res, Err(ErrorSRTP::ErrorReplay(_))));
    assert_eq!(segunda, srtp);
}

#[test]
fn proteger_errores_propios() {
    let mut ctx = contexto_srtp_prueba_basico();
    let mut corto = vec![0u8; 11];
    assert!(matches!(
        ctx.proteger_y_firmar_rtp(1, &mut corto),
        Err(ErrorSRTP::ErrorPaqueteDemasiadoCorto(_))
    ));
    assert_eq!(corto, vec![0u8; 11]);
    let mut ctx_mala = SRTPContexto::new(vec![0u8; 15], vec![0u8; 14]);
    let mut paquete = vec![0u8; 20];
    assert!(matches!(
        ctx_mala.proteger_rtp(1, &mut paquete),
        Err(ErrorSRTP::ErrorClaveSaltInvalida(_))
    ));
    assert_eq!(paquete, vec![0u8; 20]);
    let mut ok = vec![0u8; 20];
    assert!(ctx.proteger_rtp(1, &mut ok).is_ok());
    assert_eq!(ok.len(), 20);
}
