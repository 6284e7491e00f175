//! Estado y decisiones de cada pantalla de la interfaz gráfica: cómo cambia
//! cada una con los eventos de la aplicación y qué acción resulta de lo que
//! el usuario hace en ella.
pub mod pantalla;
pub mod pantalla_iniciando_llamada;
pub mod pantalla_inicio;
pub mod pantalla_lobby;
pub mod pantalla_login;
pub mod pantalla_registro;
pub mod utils;
