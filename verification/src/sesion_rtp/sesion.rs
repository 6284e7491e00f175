//! Estadísticas de una sesión RTP, como emisor y como receptor.
use vstd::prelude::*;

use rand::Rng;

use crate::protocolos::rtcp::{report_vacio, ContenidoReport};

verus! {

/// Estadísticas de lo enviado por una fuente (identificada por su SSRC).
#[derive(Debug, Clone, Copy, PartialEq, Eq, Structural)]
pub struct EstadisticasSender {
    pub ssrc: u32,
    pub cantidad_paquetes_enviados: u32,
    pub cantidad_bytes_enviados: u32,
    pub ultimo_numero_secuencia: u16,
    pub ultimo_timestamp_enviado: u32,
}

impl EstadisticasSender {
    /// Estadísticas en cero de la fuente `ssrc`.
    pub fn new(ssrc: u32) -> (r: EstadisticasSender)
        ensures
            r == (EstadisticasSender {
                ssrc,
                cantidad_paquetes_enviados: 0,
                cantidad_bytes_enviados: 0,
                ultimo_numero_secuencia: 0,
                ultimo_timestamp_enviado: 0,
            }),
    {
        EstadisticasSender {
            ssrc,
            cantidad_paquetes_enviados: 0,
            cantidad_bytes_enviados: 0,
            ultimo_numero_secuencia: 0,
            ultimo_timestamp_enviado: 0,
        }
    }
}

/// Estadísticas de lo recibido de otra fuente.
#[derive(Debug, Clone, Copy, PartialEq, Eq, Structural)]
pub struct EstadisticasReceiver {
    pub cantidad_paquetes_recibidos: u32,
    pub cantidad_paquetes_recibidos_anterior: u32,
    pub cantidad_paquetes_esperados_anterior: u32,
    pub contenido_report: ContenidoReport,
}

/// Estadísticas iniciales de lo recibido de la fuente `ssrc`.
pub open spec fn receiver_inicial(ssrc: u32) -> EstadisticasReceiver {
    EstadisticasReceiver {
        cantidad_paquetes_recibidos: 0,
        cantidad_paquetes_recibidos_anterior: 0,
        cantidad_paquetes_esperados_anterior: 0,
        contenido_report: report_vacio(ssrc),
    }
}

impl EstadisticasReceiver {
    /// Estadísticas en cero de lo recibido de la fuente `ssrc`.
    pub fn new(ssrc: u32) -> (r: EstadisticasReceiver)
        ensures
            r == receiver_inicial(ssrc),
    {
        let contenido_report = ContenidoReport::crear_vacio_con_ssrc(ssrc);
        EstadisticasReceiver {
            contenido_report,
            cantidad_paquetes_esperados_anterior: 0,
            cantidad_paquetes_recibidos: 0,
            cantidad_paquetes_recibidos_anterior: 0,
        }
    }
}

impl Default for EstadisticasReceiver {
    fn default() -> (r: Self)
        ensures
            r == receiver_inicial(0),
    {
        EstadisticasReceiver::new(0)
    }
}

/// Llama a `rand::Rng::gen_range(0..100)` sobre `rand::thread_rng()`. Según
/// su documentación el valor está en el rango; es aleatorio, así que no se
/// afirma nada más.
#[verifier::external_body]
fn ssrc_aleatorio() -> (r: u32)
    ensures
        r < 100,
{
    rand::thread_rng().gen_range(0..100)
}

/// Estadísticas de envío de una sesión nueva: video con un SSRC aleatorio
/// menor que 100 y audio con el SSRC siguiente.
pub fn estadisticas_sender_de_sesion() -> (r: (EstadisticasSender, EstadisticasSender))
    ensures
        r.0.ssrc < 100,
        r.1.ssrc == r.0.ssrc + 1,
        r.0 == (EstadisticasSender { ssrc: r.0.ssrc, ..r.1 }),
        r.1.cantidad_paquetes_enviados == 0,
        r.1.cantidad_bytes_enviados == 0,
        r.1.ultimo_numero_secuencia == 0,
        r.1.ultimo_timestamp_enviado == 0,
{
    let ssrc_video = ssrc_aleatorio();
    (EstadisticasSender::new(ssrc_video), EstadisticasSender::new(ssrc_video + 1))
}

} // verus!
