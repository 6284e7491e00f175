//! Núcleo verificado de RoomRTC: protección SRTP de paquetes RTP, utilidades
//! DTLS-SRTP, el servidor central de usuarios, el jitter buffer y las
//! estadísticas RTP/RTCP, y el estado de la vista de la aplicación.

pub mod aplicacion;
pub mod protocolos;
pub mod seguridad;
pub mod servidor_utils;
pub mod sesion_rtp;
pub mod texto;
pub mod utils_config;
pub mod vista;
