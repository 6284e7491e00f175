//! Sesión RTP: estadísticas de envío y recepción, reportes RTCP, audio en
//! paquetes RTP y el jitter buffer que ordena lo recibido.
pub mod comunicacion_rtcp;
pub mod comunicacion_rtp;
pub mod error;
pub mod jitter_buffer;
pub mod sesion;
pub mod socket_udp;
