//! Cálculos de la comunicación RTCP: pérdida de paquetes a partir de los
//! sender reports recibidos, estadísticas por fuente y contenido de los
//! sender reports propios.
use vstd::prelude::*;
use std::collections::HashMap;

use crate::protocolos::rtcp::{
    report_vacio, ContenidoPaqueteRTCP, ContenidoReport, ContenidoSenderReport,
};
use crate::sesion_rtp::sesion::{receiver_inicial, EstadisticasReceiver, EstadisticasSender};

verus! {

broadcast use vstd::std_specs::hash::group_hash_axioms;

/// Diferencia módulo 2^32 (como `u32::wrapping_sub`).
pub open spec fn resta_circular(a: u32, b: u32) -> u32 {
    (if a >= b {
        a - b
    } else {
        a - b + 0x1_0000_0000
    }) as u32
}

/// Fracción perdida en punto fijo de 8 bits (256 representa 1) a partir de
/// los paquetes esperados y recibidos en el intervalo: `perdidos * 256 /
/// esperados`, con las cuentas módulo 2^32 y el resultado en 8 bits.
pub open spec fn fraccion_perdida(esperados: u32, recibidos: u32) -> u8 {
    if esperados > 0 {
        (((resta_circular(esperados, recibidos) * 256) % 0x1_0000_0000) / (esperados as int)
            % 256) as u8
    } else {
        0
    }
}

/// Calcula la fracción de paquetes perdidos desde el sender report anterior
/// de la fuente, y deja registrados los esperados y recibidos de este
/// intervalo para el siguiente. La fracción va en punto fijo con la coma
/// antes del primer bit (128 representa 1/2).
pub fn calcular_fraccion_paquetes_perdidos(
    contenido_sender: &ContenidoSenderReport,
    estadisticas_receiver: &mut EstadisticasReceiver,
) -> (r: u8)
    ensures
        r == fraccion_perdida(
            resta_circular(
                contenido_sender.sender_packet_count,
                old(estadisticas_receiver).cantidad_paquetes_esperados_anterior,
            ),
            resta_circular(
                old(estadisticas_receiver).cantidad_paquetes_recibidos,
                old(estadisticas_receiver).cantidad_paquetes_recibidos_anterior,
            ),
        ),
        *final(estadisticas_receiver) == (EstadisticasReceiver {
            cantidad_paquetes_esperados_anterior: contenido_sender.sender_packet_count,
            cantidad_paquetes_recibidos_anterior: old(estadisticas_receiver).cantidad_paquetes_recibidos,
            ..*old(estadisticas_receiver)
        }),
{
    let esperados_en_intervalo = contenido_sender.sender_packet_count.wrapping_sub(
        estadisticas_receiver.cantidad_paquetes_esperados_anterior,
    );
    estadisticas_receiver.cantidad_paquetes_esperados_anterior =
    contenido_sender.sender_packet_count;
    let recibidos_en_intervalo = estadisticas_receiver.cantidad_paquetes_recibidos.wrapping_sub(
        estadisticas_receiver.cantidad_paquetes_recibidos_anterior,
    );
    estadisticas_receiver.cantidad_paquetes_recibidos_anterior =
    estadisticas_receiver.cantidad_paquetes_recibidos;
    let perdida_en_intervalo = esperados_en_intervalo.wrapping_sub(recibidos_en_intervalo);
    if esperados_en_intervalo > 0 {
        let desplazada: u32 = perdida_en_intervalo << 8u32;
        assert(desplazada == (perdida_en_intervalo * 256) % 0x1_0000_0000) by (bit_vector)
            requires
                desplazada == perdida_en_intervalo << 8u32,
        ;
        let cociente: u32 = desplazada / esperados_en_intervalo;
        assert(cociente as u8 == cociente % 256) by (bit_vector);
        cociente as u8
    } else {
        0
    }
}

/// Cantidad de paquetes perdidos en 24 bits: enviados menos recibidos
/// (módulo 2^32), con tope `0xffffff`.
pub fn calcular_cant_paquetes_perdidos(cant_paquetes_mandados: u32, cant_recibidos: u32) -> (r: u32)
    ensures
        r == (if resta_circular(cant_paquetes_mandados, cant_recibidos) < 0xffffff {
            resta_circular(cant_paquetes_mandados, cant_recibidos)
        } else {
            0xffffff
        }),
{
    let perdidos = cant_paquetes_mandados.wrapping_sub(cant_recibidos);
    if perdidos < 0xffffff {
        perdidos
    } else {
        0xffffff
    }
}

/// Estadísticas de la fuente en el diccionario, o las iniciales si todavía
/// no figura.
pub open spec fn estadisticas_de(m: Map<u32, EstadisticasReceiver>, ssrc: u32) -> EstadisticasReceiver {
    if m.contains_key(ssrc) {
        m[ssrc]
    } else {
        receiver_inicial(ssrc)
    }
}

/// Estadísticas de una fuente luego de recibir de ella un sender report.
pub open spec fn tras_sender_report(e: EstadisticasReceiver, s: ContenidoSenderReport) -> EstadisticasReceiver {
    let esperados = resta_circular(s.sender_packet_count, e.cantidad_paquetes_esperados_anterior);
    let recibidos = resta_circular(e.cantidad_paquetes_recibidos, e.cantidad_paquetes_recibidos_anterior);
    let perdidos = resta_circular(s.sender_packet_count, e.cantidad_paquetes_recibidos);
    EstadisticasReceiver {
        cantidad_paquetes_esperados_anterior: s.sender_packet_count,
        cantidad_paquetes_recibidos_anterior: e.cantidad_paquetes_recibidos,
        contenido_report: ContenidoReport {
            tiempo_desde_ultimo_paquete: s.rtp_timestamp,
            frac_paquetes_perdidos: fraccion_perdida(esperados, recibidos),
            cant_paquetes_perdidos: if perdidos < 0xffffff {
                perdidos
            } else {
                0xffffff
            },
            ..e.contenido_report
        },
        ..e
    }
}

/// Registra un receiver report de la fuente `ssrc`: si la fuente no tenía
/// estadísticas, se le crean las iniciales.
pub fn registrar_receiver_report(dicc: &mut HashMap<u32, EstadisticasReceiver>, ssrc: u32)
    ensures
        final(dicc)@ == old(dicc)@.insert(ssrc, estadisticas_de(old(dicc)@, ssrc)),
{
    if !dicc.contains_key(&ssrc) {
        dicc.insert(ssrc, EstadisticasReceiver::new(ssrc));
    } else {
        assert(old(dicc)@.insert(ssrc, old(dicc)@[ssrc]) =~= old(dicc)@);
    }
}

/// Registra un sender report de la fuente `ssrc`: actualiza su fracción y
/// cantidad de paquetes perdidos y el timestamp del último reporte, y
/// devuelve sus estadísticas actualizadas.
pub fn registrar_sender_report(
    dicc: &mut HashMap<u32, EstadisticasReceiver>,
    ssrc: u32,
    contenido: &ContenidoSenderReport,
) -> (r: EstadisticasReceiver)
    ensures
        r == tras_sender_report(estadisticas_de(old(dicc)@, ssrc), *contenido),
        final(dicc)@ == old(dicc)@.insert(ssrc, r),
{
    let mut estadisticas = match dicc.get(&ssrc) {
        Some(e) => *e,
        None => EstadisticasReceiver::new(ssrc),
    };
    let fraccion = calcular_fraccion_paquetes_perdidos(contenido, &mut estadisticas);
    estadisticas.contenido_report.tiempo_desde_ultimo_paquete = contenido.rtp_timestamp;
    estadisticas.contenido_report.frac_paquetes_perdidos = fraccion;
    estadisticas.contenido_report.cant_paquetes_perdidos =
    calcular_cant_paquetes_perdidos(
        contenido.sender_packet_count,
        estadisticas.cantidad_paquetes_recibidos,
    );
    dicc.insert(ssrc, estadisticas);
    estadisticas
}

/// Qué hacer después de procesar un paquete RTCP recibido.
#[derive(Debug, Clone, Copy, PartialEq, Eq, Structural)]
pub enum AccionRTCP {
    /// El otro extremo cortó la llamada: se deja de escuchar.
    CortarLlamada,
    /// Se sigue con el próximo paquete.
    Seguir,
    /// Se informan las estadísticas actualizadas de la fuente y se sigue.
    EnviarEstadisticas(EstadisticasReceiver),
}

/// Procesa un paquete RTCP recibido de la fuente `ssrc`: un `BYE` corta la
/// llamada sin tocar las estadísticas; un receiver report registra la
/// fuente; un sender report actualiza sus estadísticas, que se informan.
pub fn procesar_paquete_rtcp(
    dicc: &mut HashMap<u32, EstadisticasReceiver>,
    ssrc: u32,
    contenido: &ContenidoPaqueteRTCP,
) -> (r: AccionRTCP)
    ensures
        match *contenido {
            ContenidoPaqueteRTCP::Bye => r == AccionRTCP::CortarLlamada && final(dicc)@ == old(
                dicc,
            )@,
            ContenidoPaqueteRTCP::ReceiverReport(_) => r == AccionRTCP::Seguir && final(dicc)@
                == old(dicc)@.insert(ssrc, estadisticas_de(old(dicc)@, ssrc)),
            ContenidoPaqueteRTCP::SenderReport(c) => {
                let e = tras_sender_report(estadisticas_de(old(dicc)@, ssrc), c);
                &&& r == AccionRTCP::EnviarEstadisticas(e)
                &&& final(dicc)@ == old(dicc)@.insert(ssrc, e)
            },
        },
{
    match contenido {
        ContenidoPaqueteRTCP::Bye => AccionRTCP::CortarLlamada,
        ContenidoPaqueteRTCP::ReceiverReport(_) => {
            registrar_receiver_report(dicc, ssrc);
            AccionRTCP::Seguir
        },
        ContenidoPaqueteRTCP::SenderReport(c) => {
            let e = registrar_sender_report(dicc, ssrc, c);
            AccionRTCP::EnviarEstadisticas(e)
        },
    }
}

/// Los 32 bits del medio de un timestamp NTP de 64 bits (el formato
/// compacto que usa RTCP).
pub open spec fn timestamp_compacto(ntp: u64) -> u32 {
    ((ntp / 0x10000) % 0x1_0000_0000) as u32
}

/// Timestamp RTP que corresponde a un timestamp NTP: sus 32 bits del medio.
pub fn timestamp_rtp_desde_ntp(timestamp_actual: u64) -> (r: u32)
    ensures
        r == timestamp_compacto(timestamp_actual),
{
    let bits_medio: u64 = (timestamp_actual & 0x0000FFFFFFFF0000u64) >> 16u64;
    assert(bits_medio == (timestamp_actual / 0x10000) % 0x1_0000_0000) by (bit_vector)
        requires
            bits_medio == (timestamp_actual & 0x0000FFFFFFFF0000u64) >> 16u64,
    ;
    bits_medio as u32
}

/// Contenido del sender report propio: el reporte de recepción con el
/// retardo desde el último reporte recibido, los timestamps actuales y lo
/// enviado hasta el momento.
pub open spec fn sender_report(
    report: ContenidoReport,
    timestamp_actual: u64,
    sender: EstadisticasSender,
) -> ContenidoSenderReport {
    let rtp = timestamp_compacto(timestamp_actual);
    ContenidoSenderReport {
        contenido_report: ContenidoReport {
            delay_desde_ultimo_paquete: resta_circular(rtp, report.tiempo_desde_ultimo_paquete),
            ..report
        },
        ntp_timestamp: timestamp_actual,
        rtp_timestamp: rtp,
        sender_packet_count: sender.cantidad_paquetes_enviados,
        sender_octet_count: sender.cantidad_bytes_enviados,
    }
}

/// Arma el contenido del sender report a enviar sobre una fuente.
pub fn armar_sender_report(
    report: &ContenidoReport,
    timestamp_actual: u64,
    sender: &EstadisticasSender,
) -> (r: ContenidoSenderReport)
    ensures
        r == sender_report(*report, timestamp_actual, *sender),
{
    let rtp = timestamp_rtp_desde_ntp(timestamp_actual);
    let mut contenido = *report;
    contenido.delay_desde_ultimo_paquete = rtp.wrapping_sub(contenido.tiempo_desde_ultimo_paquete);
    ContenidoSenderReport {
        contenido_report: contenido,
        ntp_timestamp: timestamp_actual,
        rtp_timestamp: rtp,
        sender_packet_count: sender.cantidad_paquetes_enviados,
        sender_octet_count: sender.cantidad_bytes_enviados,
    }
}

/// Arma el primer sender report, que se envía antes de recibir nada: su
/// reporte de recepción es el vacío de la fuente 5.
pub fn armar_primer_sender_report(timestamp_actual: u64, sender: &EstadisticasSender) -> (r:
    ContenidoSenderReport)
    ensures
        r == sender_report(report_vacio(5), timestamp_actual, *sender),
{
    let report = ContenidoReport::crear_vacio_con_ssrc(5);
    armar_sender_report(&report, timestamp_actual, sender)
}

/// Tamaño promedio de los mensajes enviados (0 si no se envió ninguno).
pub fn tamanio_promedio(suma_tamanios: usize, cantidad_mensajes: usize) -> (r: usize)
    ensures
        cantidad_mensajes > 0 ==> r == suma_tamanios / cantidad_mensajes,
        cantidad_mensajes == 0 ==> r == 0,
{
    if cantidad_mensajes > 0 {
        suma_tamanios / cantidad_mensajes
    } else {
        0
    }
}

/// Bytes del mensaje con el que se avisa el fin de la llamada: `END`.
pub open spec fn bytes_fin_llamada() -> Seq<u8> {
    seq![69u8, 78u8, 68u8]
}

/// Mensaje con el que se avisa el fin de la llamada.
pub fn mensaje_finalizacion_llamada() -> (r: Vec<u8>)
    ensures
        r@ == bytes_fin_llamada(),
{
    let r: Vec<u8> = vec![69u8, 78u8, 68u8];
    assert(r@ =~= bytes_fin_llamada());
    r
}

/// Indica si los bytes recibidos son el mensaje de fin de llamada.
pub fn es_mensaje_finalizacion(bytes: &[u8]) -> (r: bool)
    ensures
        r == (bytes@ == bytes_fin_llamada()),
{
    let fin = mensaje_finalizacion_llamada();
    if bytes.len() != 3 {
        return false;
    }
    let r = bytes[0] == fin[0] && bytes[1] == fin[1] && bytes[2] == fin[2];
    if r {
        assert(bytes@ =~= bytes_fin_llamada());
    }
    r
}

/// Fracción perdida en un intervalo con `e` paquetes esperados y `r`
/// recibidos (sin más pérdidas que las que caben en 24 bits): es
/// `(e - r) * 256 / e` en 8 bits, así que es 0 cuando llegaron todos, crece
/// con los perdidos, y con algún paquete recibido es exactamente la
/// proporción perdida, menor que 256.
pub proof fn ley_fraccion_perdida(e: u32, r: u32)
    requires
        0 < e,
        r <= e,
        e - r < 0x100_0000,
    ensures
        fraccion_perdida(e, r) == ((e - r) * 256 / (e as int)) % 256,
        r == e ==> fraccion_perdida(e, r) == 0,
        0 < r ==> fraccion_perdida(e, r) == (e - r) * 256 / (e as int),
        0 < r ==> fraccion_perdida(e, r) * e <= (e - r) * 256 < (fraccion_perdida(e, r) + 1) * e,
        resta_circular(e, r) == e - r,
{
    let d: int = e - r;
    assert(d * 256 < 0x1_0000_0000);
    assert((d * 256) % 0x1_0000_0000 == d * 256);
    if 0 < r {
        assert(d * 256 / (e as int) < 256) by (nonlinear_arith)
            requires
                0 <= d < e,
                0 < e,
        ;
        assert(d * 256 / (e as int) >= 0) by (nonlinear_arith)
            requires
                0 <= d,
                0 < e,
        ;
        let f: int = d * 256 / (e as int);
        assert(f * e <= d * 256 < (f + 1) * e) by (nonlinear_arith)
            requires
                f == d * 256 / (e as int),
                0 < e,
        ;
    }
}

/// Un sender report con `n` paquetes enviados en total, recibido cuando la
/// fuente ya tenía registrados los esperados y recibidos del reporte
/// anterior: la fracción perdida es la de los paquetes que faltaron en el
/// intervalo desde ese reporte, la cantidad perdida es la de todos los que
/// faltaron desde el principio (tope de 24 bits), y quedan registrados los
/// contadores de este reporte para el siguiente.
pub proof fn ley_sender_report(e: EstadisticasReceiver, s: ContenidoSenderReport)
    requires
        e.cantidad_paquetes_esperados_anterior < s.sender_packet_count,
        e.cantidad_paquetes_recibidos_anterior <= e.cantidad_paquetes_recibidos,
        e.cantidad_paquetes_recibidos - e.cantidad_paquetes_recibidos_anterior <= s.sender_packet_count
            - e.cantidad_paquetes_esperados_anterior,
        e.cantidad_paquetes_recibidos <= s.sender_packet_count,
        (s.sender_packet_count - e.cantidad_paquetes_esperados_anterior) - (
        e.cantidad_paquetes_recibidos - e.cantidad_paquetes_recibidos_anterior) < 0x100_0000,
    ensures
        ({
            let t = tras_sender_report(e, s);
            let esperados = s.sender_packet_count - e.cantidad_paquetes_esperados_anterior;
            let recibidos = e.cantidad_paquetes_recibidos - e.cantidad_paquetes_recibidos_anterior;
            let perdidos = s.sender_packet_count - e.cantidad_paquetes_recibidos;
            &&& t.contenido_report.frac_paquetes_perdidos == ((esperados - recibidos) * 256
                / esperados) % 256
            &&& recibidos == esperados ==> t.contenido_report.frac_paquetes_perdidos == 0
            &&& t.contenido_report.cant_paquetes_perdidos == (if perdidos < 0xffffff {
                perdidos
            } else {
                0xffffff
            })
            &&& t.contenido_report.tiempo_desde_ultimo_paquete == s.rtp_timestamp
            &&& t.cantidad_paquetes_esperados_anterior == s.sender_packet_count
            &&& t.cantidad_paquetes_recibidos_anterior == e.cantidad_paquetes_recibidos
            &&& t.cantidad_paquetes_recibidos == e.cantidad_paquetes_recibidos
        }),
{
    let esperados = (s.sender_packet_count - e.cantidad_paquetes_esperados_anterior) as u32;
    let recibidos = (e.cantidad_paquetes_recibidos - e.cantidad_paquetes_recibidos_anterior) as u32;
    ley_fraccion_perdida(esperados, recibidos);
}

} // verus!
