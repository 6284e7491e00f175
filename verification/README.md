# room_rtc_2c_25

Núcleo verificado de RoomRTC, una aplicación de videollamadas entre pares con
un servidor central de usuarios. Cada función de `src/` tiene su contrato
(`requires` / `ensures`) y está probada con Verus.

## Organización

- `src/seguridad/`: contexto SRTP (protección y verificación de paquetes RTP,
  ventana anti-replay), derivación de claves, y utilidades DTLS (certificados,
  huellas en formato SDP, atributo `setup`, rol DTLS, claves SRTP exportadas).
  El cifrado AES-CTR, HMAC-SHA1 y la generación de certificados los hace
  `openssl`/`udp-dtls`, detrás de funciones con contrato.
- `src/servidor_utils/`: servidor central (registro, inicio de sesión, estados,
  señalización de llamadas) como máquina de estados que devuelve acciones;
  manejador de usuario; registro de usuarios; formato del archivo de usuarios.
- `src/sesion_rtp/`: jitter buffer, estadísticas RTP/RTCP, audio en bytes,
  codificación H.264 (`openh264`) y SSRC aleatorio (`rand`).
- `src/vista/`: estado de la vista simulada y de cada pantalla ante los eventos
  de la aplicación (`src/aplicacion.rs`), y las acciones que resultan de cada
  pantalla.
- `src/utils_config.rs`, `src/texto.rs`: archivo de configuración y operaciones
  sobre texto.
- `app/`: lo que hace entrada y salida: archivos, canales e hilos del servidor
  central, del manejador de usuario y del jitter buffer.
- `tests/`: pruebas de la biblioteca.

## Qué queda fuera de `src/`

- `src/protocolos/` es el modelo propio de la biblioteca de los mensajes PCA,
  los reportes RTCP y la descripción SDP, tal como los usan las funciones
  verificadas; la codificación de esos mensajes y de los paquetes RTP/RTCP en
  bytes no forma parte de este crate.
- Los lazos que envían y reciben RTP y RTCP por los sockets (con sus hilos)
  no están: dependen de esa codificación de paquetes. Sus pasos sí están en
  `src/sesion_rtp/`: clasificación de datagramas, destino de cada paquete RTP
  según su tipo de payload, protección y verificación SRTP, estadísticas,
  procesamiento de cada paquete RTCP recibido, reportes y el jitter buffer.
- La interfaz gráfica no está: de las pantallas quedan su estado y sus decisiones.
