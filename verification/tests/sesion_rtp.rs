use room_rtc_2c_25::protocolos::rtcp::{
    ContenidoPaqueteRTCP, ContenidoReport, ContenidoSenderReport,
};
use room_rtc_2c_25::sesion_rtp::comunicacion_rtcp::{
    armar_primer_sender_report, armar_sender_report, calcular_cant_paquetes_perdidos,
    calcular_fraccion_paquetes_perdidos, es_mensaje_finalizacion, mensaje_finalizacion_llamada,
    procesar_paquete_rtcp, registrar_receiver_report, registrar_sender_report, tamanio_promedio,
    timestamp_rtp_desde_ntp, AccionRTCP,
};
use room_rtc_2c_25::sesion_rtp::comunicacion_rtp::{
    actualizar_estadisticas_receiver, actualizar_estadisticas_sender, clasificar_datagrama,
    destino_por_tipo_payload, encodear_frame, DestinoPaquete,
    obtener_audio_de_bytes,
    obtener_bytes_audio_a_enviar, obtener_datos_nuevo_paquete, Frame,
};
use room_rtc_2c_25::sesion_rtp::error::{ErrorComunicacionRTCP, ErrorComunicacionRTP, ErrorSesion};
use room_rtc_2c_25::sesion_rtp::jitter_buffer::gestion_jitter_buffer::{
    EstadoJitterBuffer, InformacionPaqueteRTP, JitterBufferAudio, JitterBufferVideo, PasoVideo,
    SincronizacionVideo,
};
use room_rtc_2c_25::sesion_rtp::jitter_buffer::mensaje_jitter_buffer::MensajeJitterBuffer;
use room_rtc_2c_25::sesion_rtp::sesion::{EstadisticasReceiver, EstadisticasSender};
use room_rtc_2c_25::sesion_rtp::socket_udp::MockSocketUdp;
use std::collections::HashMap;

fn paquete(timestamp: u32, payload: Vec<u8>) -> MensajeJitterBuffer {
    MensajeJitterBuffer::InformacionPaqueteRTP(InformacionPaqueteRTP { timestamp, payload })
}

#[test]
fn test01_envian_mensaje_finalizacion_llamada() {
    let mut estado = EstadoJitterBuffer::new(30);
    let seguir = estado.recibir_mensaje(MensajeJitterBuffer::MensajeFinalizacionLlamada);
    assert!(!seguir);
    assert!(estado.llamada_finalizada());
}

#[test]
fn test02_envian_mensaje_timestamp_menor() {
    let mut estado = EstadoJitterBuffer::con_ultimo_timestamp(30, 10);
    assert!(estado.recibir_mensaje(paquete(4, vec![4])));
    assert!(!estado.llamada_finalizada());
    assert!(estado.obtener(4).is_none());
    assert_eq!(estado.cantidad(), 0);
}

#[test]
fn test03_envian_mensaje_timestamp_se_agrega_a_arbol() {
    let mut estado = EstadoJitterBuffer::new(30);
    estado.recibir_mensaje(paquete(10, vec![4]));
    assert!(!estado.llamada_finalizada());
    assert_eq!(estado.obtener(10), Some(&vec![4u8]));
}

#[test]
fn test04_envian_mensaje_tam_buffer_lleno() {
    let mut estado = EstadoJitterBuffer::new(1);
    estado.recibir_mensaje(paquete(10, vec![4]));
    assert_eq!(estado.obtener(10), Some(&vec![4u8]));
    estado.recibir_mensaje(paquete(4, vec![4]));
    assert_eq!(estado.obtener(4), Some(&vec![4u8]));
    assert!(estado.obtener(10).is_none());
}

#[test]
fn test05_envian_mensaje_tam_buffer_lleno_se_elimina_timestamp_mas_peq() {
    let mut estado = EstadoJitterBuffer::new(2);
    estado.recibir_mensaje(paquete(10, vec![4]));
    estado.recibir_mensaje(paquete(4, vec![4]));
    assert_eq!(estado.obtener(10), Some(&vec![4u8]));
    assert_eq!(estado.obtener(4), Some(&vec![4u8]));
    estado.recibir_mensaje(paquete(12, vec![4]));
    assert!(estado.obtener(4).is_none());
    assert_eq!(estado.obtener(10), Some(&vec![4u8]));
    assert_eq!(estado.obtener(12), Some(&vec![4u8]));
}

#[test]
fn primer_timestamp_es_el_mas_chico() {
    let mut estado = EstadoJitterBuffer::new(10);
    assert_eq!(estado.primer_timestamp(), None);
    estado.recibir_mensaje(paquete(700, vec![1]));
    estado.recibir_mensaje(paquete(300, vec![2]));
    estado.recibir_mensaje(paquete(500, vec![3]));
    assert_eq!(estado.primer_timestamp(), Some(300));
    assert_eq!(estado.cantidad(), 3);
}

#[test]
fn buffer_de_capacidad_cero_guarda_solo_el_ultimo() {
    let mut estado = EstadoJitterBuffer::new(0);
    estado.recibir_mensaje(paquete(5, vec![1]));
    estado.recibir_mensaje(paquete(7, vec![2]));
    assert_eq!(estado.cantidad(), 1);
    assert_eq!(estado.obtener(7), Some(&vec![2u8]));
}

#[test]
fn video_entrega_en_orden_y_descarta_atrasados() {
    let mut estado = EstadoJitterBuffer::new(10);
    estado.recibir_mensaje(paquete(10_000, vec![3]));
    estado.recibir_mensaje(paquete(1_000, vec![1]));
    estado.recibir_mensaje(paquete(9_500, vec![2]));
    let mut sync = SincronizacionVideo::new();
    // audio en 10000: el frame 1000 está atrasado más que la tolerancia
    assert!(matches!(
        JitterBufferVideo::paso(&mut estado, &mut sync, 10_000),
        PasoVideo::DescartadoAtrasado(1_000)
    ));
    match JitterBufferVideo::paso(&mut estado, &mut sync, 10_000) {
        PasoVideo::Enviar(ts, payload) => {
            assert_eq!(ts, 9_500);
            assert_eq!(payload, vec![2]);
            estado.confirmar_entrega(ts);
        }
        _ => panic!("se esperaba entregar el frame 9500"),
    }
    assert_eq!(estado.ultimo_timestamp(), 9_500);
    assert_eq!(sync.contador, 1);
    assert!(matches!(
        JitterBufferVideo::paso(&mut estado, &mut sync, 10_000),
        PasoVideo::Enviar(10_000, _)
    ));
    assert!(matches!(
        JitterBufferVideo::paso(&mut estado, &mut sync, 10_000),
        PasoVideo::Vacio
    ));
}

#[test]
fn video_adelantado_se_descarta_y_sin_audio_se_entrega() {
    let mut estado = EstadoJitterBuffer::new(10);
    estado.recibir_mensaje(paquete(20_000, vec![1]));
    let mut sync = SincronizacionVideo::new();
    assert!(matches!(
        JitterBufferVideo::paso(&mut estado, &mut sync, 1_000),
        PasoVideo::DescartadoAdelantado(20_000)
    ));
    // si el audio lleva muchas entregas sin variar, se entrega igual
    let mut sync = SincronizacionVideo { contador: 8, timestamp_anterior_audio: 1_000 };
    estado.recibir_mensaje(paquete(20_000, vec![1]));
    assert!(matches!(
        JitterBufferVideo::paso(&mut estado, &mut sync, 1_000),
        PasoVideo::Enviar(20_000, _)
    ));
    assert_eq!(sync.contador, 9);
}

#[test]
fn audio_se_convierte_de_bytes_big_endian() {
    let mut estado = EstadoJitterBuffer::new(10);
    estado.recibir_mensaje(paquete(7, vec![0x01, 0x02, 0xFF, 0xFE, 0x09]));
    let (ts, muestras) = JitterBufferAudio::paso(&mut estado).unwrap();
    assert_eq!(ts, 7);
    assert_eq!(muestras, vec![0x0102, -2]);
    assert!(JitterBufferAudio::paso(&mut estado).is_none());
}

#[test]
fn audio_ida_y_vuelta() {
    let audio: Vec<i16> = vec![0, 1, -1, i16::MAX, i16::MIN, 258];
    let bytes = obtener_bytes_audio_a_enviar(audio.clone());
    assert_eq!(bytes, vec![0, 0, 0, 1, 0xFF, 0xFF, 0x7F, 0xFF, 0x80, 0x00, 0x01, 0x02]);
    assert_eq!(obtener_audio_de_bytes(&bytes), audio);
}

#[test]
fn fraccion_de_paquetes_perdidos() {
    let mut est = EstadisticasReceiver::new(9);
    est.cantidad_paquetes_recibidos = 6;
    est.cantidad_paquetes_recibidos_anterior = 2;
    est.cantidad_paquetes_esperados_anterior = 2;
    let sr = ContenidoSenderReport {
        contenido_report: ContenidoReport::crear_vacio_con_ssrc(1),
        ntp_timestamp: 0,
        rtp_timestamp: 0,
        sender_packet_count: 10,
        sender_octet_count: 0,
    };
    // esperados 8, recibidos 4: se perdió la mitad
    assert_eq!(calcular_fraccion_paquetes_perdidos(&sr, &mut est), 128);
    assert_eq!(est.cantidad_paquetes_esperados_anterior, 10);
    assert_eq!(est.cantidad_paquetes_recibidos_anterior, 6);
    // sin paquetes esperados en el intervalo
    assert_eq!(calcular_fraccion_paquetes_perdidos(&sr, &mut est), 0);
}

#[test]
fn cantidad_de_paquetes_perdidos_en_24_bits() {
    assert_eq!(calcular_cant_paquetes_perdidos(10, 4), 6);
    assert_eq!(calcular_cant_paquetes_perdidos(4, 10), 0xffffff);
    assert_eq!(calcular_cant_paquetes_perdidos(0x0100_0005, 0), 0xffffff);
}

#[test]
fn sender_report_registra_perdidas() {
    let mut dicc: HashMap<u32, EstadisticasReceiver> = HashMap::new();
    let sr = ContenidoSenderReport {
        contenido_report: ContenidoReport::crear_vacio_con_ssrc(1),
        ntp_timestamp: 0,
        rtp_timestamp: 777,
        sender_packet_count: 4,
        sender_octet_count: 100,
    };
    let est = registrar_sender_report(&mut dicc, 42, &sr);
    assert_eq!(est.contenido_report.tiempo_desde_ultimo_paquete, 777);
    assert_eq!(est.contenido_report.cant_paquetes_perdidos, 4);
    assert_eq!(est.contenido_report.frac_paquetes_perdidos, 0);
    assert_eq!(dicc.get(&42), Some(&est));
    registrar_receiver_report(&mut dicc, 43);
    assert_eq!(dicc.get(&43), Some(&EstadisticasReceiver::new(43)));
    registrar_receiver_report(&mut dicc, 42);
    assert_eq!(dicc.get(&42), Some(&est));
}

#[test]
fn estadisticas_de_envio_y_recepcion() {
    let mut sender = EstadisticasSender::new(5);
    actualizar_estadisticas_sender(&mut sender, 100, 999);
    actualizar_estadisticas_sender(&mut sender, 50, 1000);
    assert_eq!(sender.cantidad_paquetes_enviados, 2);
    assert_eq!(sender.cantidad_bytes_enviados, 150);
    assert_eq!(sender.ultimo_numero_secuencia, 2);
    assert_eq!(sender.ultimo_timestamp_enviado, 1000);
    assert_eq!(obtener_datos_nuevo_paquete(&sender), (5, 2, 150, 2));

    let mut dicc: HashMap<u32, EstadisticasReceiver> = HashMap::new();
    actualizar_estadisticas_receiver(3, 10, &mut dicc);
    actualizar_estadisticas_receiver(3, 7, &mut dicc);
    let e = dicc.get(&3).unwrap();
    assert_eq!(e.cantidad_paquetes_recibidos, 2);
    assert_eq!(e.contenido_report.numero_mas_grande_de_paquete_recibido, 10);
    assert_eq!(e.contenido_report.ssrc_report, 3);
}

#[test]
fn sender_report_propio() {
    let sender = EstadisticasSender {
        ssrc: 1,
        cantidad_paquetes_enviados: 4,
        cantidad_bytes_enviados: 64,
        ultimo_numero_secuencia: 4,
        ultimo_timestamp_enviado: 0,
    };
    let ntp: u64 = 0x0000_1234_5678_0000;
    assert_eq!(timestamp_rtp_desde_ntp(ntp), 0x1234_5678);
    let mut report = ContenidoReport::crear_vacio_con_ssrc(2);
    report.tiempo_desde_ultimo_paquete = 0x1234_0000;
    let sr = armar_sender_report(&report, ntp, &sender);
    assert_eq!(sr.rtp_timestamp, 0x1234_5678);
    assert_eq!(sr.contenido_report.delay_desde_ultimo_paquete, 0x5678);
    assert_eq!(sr.sender_packet_count, 4);
    assert_eq!(sr.sender_octet_count, 64);
    let primero = armar_primer_sender_report(ntp, &sender);
    assert_eq!(primero.contenido_report.ssrc_report, 5);
    assert_eq!(tamanio_promedio(30, 3), 10);
    assert_eq!(tamanio_promedio(30, 0), 0);
}

#[test]
fn mensaje_de_fin_de_llamada() {
    assert_eq!(mensaje_finalizacion_llamada(), b"END".to_vec());
    assert!(es_mensaje_finalizacion(b"END"));
    assert!(!es_mensaje_finalizacion(b"ENDS"));
    assert!(!es_mensaje_finalizacion(b"end"));
}

#[test]
fn frames() {
    let f = Frame::new(vec![1, 2, 3, 4, 5, 6], 2, 1);
    assert!(!f.es_frame_finalizacion);
    assert_eq!(f.anchura, 2);
    let fin = Frame::frame_finalizacion();
    assert!(fin.es_frame_finalizacion);
    assert_eq!(fin.bytes, vec![0, 0, 0]);
    assert_eq!((fin.anchura, fin.altura), (1, 1));
}

#[test]
fn socket_simulado() {
    let mut socket = MockSocketUdp::new(vec![9], vec![vec![1, 2, 3], vec![4]]);
    assert_eq!(socket.enviar(&[7, 8]).unwrap(), 2);
    assert_eq!(socket.bytes_enviados, vec![9, 7, 8]);
    let mut buffer = [0u8; 5];
    assert_eq!(socket.recibir(&mut buffer).unwrap(), 3);
    assert_eq!(buffer, [1, 2, 3, 0, 0]);
    assert_eq!(socket.recibir(&mut buffer).unwrap(), 1);
    assert_eq!(buffer, [4, 2, 3, 0, 0]);
}

#[test]
fn textos_de_error() {
    assert_eq!(ErrorSesion::ComunicacionRTP.a_texto(), "Error en comunicacion RTP");
    assert_eq!(
        ErrorComunicacionRTP::ErrorEnviandoAudio.a_texto(),
        "ERROR: Fallo al enviar audio"
    );
    assert_eq!(
        ErrorComunicacionRTCP::PaqueteInvalidoRecibido.a_texto(),
        "ERROR: Se recibio un paquete invalido"
    );
}

#[test]
fn clasificacion_de_datagramas_recibidos() {
    assert_eq!(clasificar_datagrama(b"END"), Ok(None));
    assert_eq!(
        clasificar_datagrama(&[0x80, 96, 0, 1, 0, 0, 0, 5, 0, 0, 1]),
        Err(ErrorComunicacionRTP::ErrorSerializarAPaquete)
    );
    assert_eq!(
        clasificar_datagrama(&[0x80, 96, 0, 1, 0, 0, 0, 5, 0x12, 0x34, 0x56, 0x78, 9]),
        Ok(Some(0x12345678))
    );
    assert_eq!(
        clasificar_datagrama(&[0, 0, 0, 0, 0, 0, 0, 0, 0xff, 0xff, 0xff, 0xff]),
        Ok(Some(u32::MAX))
    );
}

#[test]
fn encodear_frame_depende_solo_del_frame() {
    let bytes: Vec<u8> = (0..(16 * 16 * 3)).map(|i| (i % 251) as u8).collect();
    let a = encodear_frame(Frame::new(bytes.clone(), 16, 16)).unwrap();
    let b = encodear_frame(Frame::new(bytes, 16, 16)).unwrap();
    assert!(!a.is_empty());
    assert_eq!(a, b);
}

#[test]
fn capacidad_respetada_en_toda_una_serie() {
    let mut estado = EstadoJitterBuffer::con_ultimo_timestamp(3, 100);
    for (i, ts) in [150u32, 90, 120, 400, 300, 200, 50, 500].iter().enumerate() {
        estado.recibir_mensaje(paquete(*ts, vec![i as u8]));
        assert!(estado.cantidad() <= 3);
    }
    assert!(estado.obtener(90).is_none());
    assert!(estado.obtener(50).is_none());
    assert_eq!(estado.primer_timestamp(), Some(300));
    assert_eq!(estado.obtener(500), Some(&vec![7u8]));
}

#[test]
fn video_con_timestamps_cerca_del_maximo() {
    let mut estado = EstadoJitterBuffer::new(10);
    estado.recibir_mensaje(paquete(u32::MAX - 10, vec![1]));
    estado.recibir_mensaje(paquete(u32::MAX - 1, vec![2]));
    let mut sync = SincronizacionVideo::new();
    // audio muy atrás: los frames están adelantados más que la tolerancia
    assert!(matches!(
        JitterBufferVideo::paso(&mut estado, &mut sync, 5),
        PasoVideo::DescartadoAdelantado(ts) if ts == u32::MAX - 10
    ));
    // audio cerca del máximo: el frame está dentro de la tolerancia
    assert!(matches!(
        JitterBufferVideo::paso(&mut estado, &mut sync, u32::MAX),
        PasoVideo::Enviar(ts, _) if ts == u32::MAX - 1
    ));
}

#[test]
fn destino_segun_tipo_de_payload() {
    assert_eq!(destino_por_tipo_payload(11), DestinoPaquete::Audio);
    assert_eq!(destino_por_tipo_payload(96), DestinoPaquete::Video);
    assert_eq!(destino_por_tipo_payload(0), DestinoPaquete::Video);
}

#[test]
fn procesar_paquetes_rtcp() {
    let mut dicc: HashMap<u32, EstadisticasReceiver> = HashMap::new();
    let rr = ContenidoPaqueteRTCP::ReceiverReport(ContenidoReport::crear_vacio_con_ssrc(7));
    assert_eq!(procesar_paquete_rtcp(&mut dicc, 7, &rr), AccionRTCP::Seguir);
    assert_eq!(dicc.get(&7), Some(&EstadisticasReceiver::new(7)));
    let sr = ContenidoPaqueteRTCP::SenderReport(ContenidoSenderReport {
        contenido_report: ContenidoReport::crear_vacio_con_ssrc(7),
        ntp_timestamp: 0,
        rtp_timestamp: 555,
        sender_packet_count: 3,
        sender_octet_count: 30,
    });
    match procesar_paquete_rtcp(&mut dicc, 7, &sr) {
        AccionRTCP::EnviarEstadisticas(e) => {
            assert_eq!(e.contenido_report.tiempo_desde_ultimo_paquete, 555);
            assert_eq!(e.contenido_report.cant_paquetes_perdidos, 3);
            assert_eq!(dicc.get(&7), Some(&e));
        }
        otra => panic!("acción inesperada: {:?}", otra),
    }
    let antes = dicc.clone();
    assert_eq!(procesar_paquete_rtcp(&mut dicc, 7, &ContenidoPaqueteRTCP::Bye), AccionRTCP::CortarLlamada);
    assert_eq!(dicc, antes);
}
