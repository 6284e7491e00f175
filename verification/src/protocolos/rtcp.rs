//! Contenido de los reportes RTCP que usa la sesión RTP (RFC 3550): el
//! bloque de reporte de recepción y el contenido de un sender report.
use vstd::prelude::*;

verus! {

/// Bloque de reporte de recepción de una fuente.
#[derive(Debug, Clone, Copy, PartialEq, Eq, Structural)]
pub struct ContenidoReport {
    pub ssrc_report: u32,
    pub cant_paquetes_perdidos: u32,
    pub tiempo_desde_ultimo_paquete: u32,
    pub frac_paquetes_perdidos: u8,
    pub numero_mas_grande_de_paquete_recibido: u32,
    pub tiempo_est_entre_paquetes: u32,
    pub delay_desde_ultimo_paquete: u32,
}

/// Reporte vacío (todo en cero) de la fuente dada.
pub open spec fn report_vacio(ssrc: u32) -> ContenidoReport {
    ContenidoReport {
        ssrc_report: ssrc,
        cant_paquetes_perdidos: 0,
        tiempo_desde_ultimo_paquete: 0,
        frac_paquetes_perdidos: 0,
        numero_mas_grande_de_paquete_recibido: 0,
        tiempo_est_entre_paquetes: 0,
        delay_desde_ultimo_paquete: 0,
    }
}

impl ContenidoReport {
    /// Reporte vacío de la fuente `ssrc`.
    pub fn crear_vacio_con_ssrc(ssrc: u32) -> (r: Self)
        ensures
            r == report_vacio(ssrc),
    {
        ContenidoReport {
            ssrc_report: ssrc,
            cant_paquetes_perdidos: 0,
            tiempo_desde_ultimo_paquete: 0,
            frac_paquetes_perdidos: 0,
            numero_mas_grande_de_paquete_recibido: 0,
            tiempo_est_entre_paquetes: 0,
            delay_desde_ultimo_paquete: 0,
        }
    }
}

/// Contenido de un sender report: el reporte de recepción, los timestamps
/// NTP y RTP, y lo enviado hasta el momento.
#[derive(Debug, Clone, Copy, PartialEq, Eq, Structural)]
pub struct ContenidoSenderReport {
    pub contenido_report: ContenidoReport,
    pub ntp_timestamp: u64,
    pub rtp_timestamp: u32,
    pub sender_packet_count: u32,
    pub sender_octet_count: u32,
}

/// Contenido de un paquete RTCP recibido, en lo que la sesión distingue:
/// un sender report, un receiver report o el aviso de fin (`BYE`).
#[derive(Debug, Clone, Copy, PartialEq, Eq, Structural)]
pub enum ContenidoPaqueteRTCP {
    SenderReport(ContenidoSenderReport),
    ReceiverReport(ContenidoReport),
    Bye,
}

} // verus!
