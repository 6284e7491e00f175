//! Servidor central de usuarios: registro, inicio de sesión, estados y
//! reenvío de la señalización de llamadas entre usuarios conectados.
pub mod error;
pub mod estado_usuario;
pub mod handler_usuario;
pub mod mensajes;
pub mod persistencia;
pub mod registro_usuarios;
pub mod servidor_central;
pub mod tablas;
pub mod stream_tcp_mock;
