//! Elementos comunes de las pantallas.
pub mod iconos;
