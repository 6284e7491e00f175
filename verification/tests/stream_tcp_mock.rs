use room_rtc_2c_25::servidor_utils::stream_tcp_mock::MockStreamTCP;

#[test]
fn mock_stream_lee_en_partes_y_guarda_lo_escrito() {
    let mut stream = MockStreamTCP::new(b"hola mundo".to_vec());
    let mut buf = [0u8; 4];
    assert_eq!(stream.read(&mut buf), 4);
    assert_eq!(&buf, b"hola");
    let mut grande = [9u8; 16];
    assert_eq!(stream.read(&mut grande), 6);
    assert_eq!(&grande[..6], b" mundo");
    assert_eq!(grande[6], 9);
    assert_eq!(stream.read(&mut grande), 0);

    assert_eq!(stream.write(b"abc"), 3);
    assert_eq!(stream.write(b"de"), 2);
    assert_eq!(stream.bytes_escritos(), &b"abcde".to_vec());
}

#[test]
fn mock_stream_leer_mensaje_agrega_texto() {
    let mut stream = MockStreamTCP::new("ENTRAR ana clave\n".as_bytes().to_vec());
    let mut buffer = String::from(">");
    assert_eq!(stream.leer_mensaje(&mut buffer), Ok(17));
    assert_eq!(buffer, ">ENTRAR ana clave\n");
    assert_eq!(stream.leer_mensaje(&mut buffer), Ok(0));
    assert_eq!(buffer, ">ENTRAR ana clave\n");
}

#[test]
fn mock_stream_leer_mensaje_reemplaza_utf8_invalido() {
    let mut stream = MockStreamTCP::new(vec![b'a', 0xff, b'b', 0xc3, 0xb1]);
    let mut buffer = String::new();
    assert_eq!(stream.leer_mensaje(&mut buffer), Ok(5));
    assert_eq!(buffer, "a\u{fffd}bñ");
}

#[test]
fn mock_stream_leer_mensaje_lee_a_lo_sumo_24000_bytes() {
    let mut stream = MockStreamTCP::new(vec![b'x'; 24010]);
    let mut buffer = String::new();
    assert_eq!(stream.leer_mensaje(&mut buffer), Ok(24000));
    assert_eq!(buffer.len(), 24000);
    assert_eq!(stream.leer_mensaje(&mut buffer), Ok(10));
    assert_eq!(buffer.len(), 24010);
}
