//! Comunicación RTP: frames de la cámara, audio en bytes big-endian para el
//! payload, y actualización de las estadísticas de envío y recepción.
use vstd::prelude::*;
use std::collections::HashMap;
use std::sync::mpsc::{Receiver, Sender};
use openh264::encoder::{BitRate, Encoder, EncoderConfig};
use openh264::formats::{RgbSliceU8, YUVBuffer};
use openh264::OpenH264API;

use crate::sesion_rtp::error::ErrorComunicacionRTP;

use crate::sesion_rtp::sesion::{EstadisticasReceiver, EstadisticasSender};
use crate::sesion_rtp::comunicacion_rtcp::{bytes_fin_llamada, es_mensaje_finalizacion, estadisticas_de};

verus! {

broadcast use vstd::std_specs::hash::group_hash_axioms;

#[verifier::external_type_specification]
#[verifier::external_body]
#[verifier::reject_recursive_types(T)]
pub struct ExReceiver<T>(Receiver<T>);

#[verifier::external_type_specification]
#[verifier::external_body]
#[verifier::reject_recursive_types(T)]
pub struct ExSender<T>(Sender<T>);

#[verifier::external_type_specification]
#[verifier::external_body]
pub struct ExOpenh264Error(openh264::Error);

/// Tasa de bits, en bits por segundo, con la que se codifica el video.
pub const BITRATE_VIDEO_BPS: u32 = 1500;

/// Bitstream H.264 que produce un codificador OpenH264 nuevo (API compilada
/// desde el código fuente, con la tasa de bits dada) al codificar el frame
/// RGB de las dimensiones dadas, o `None` si la creación del codificador o la
/// codificación fallan.
pub uninterp spec fn h264_de_rgb(rgb: Seq<u8>, ancho: usize, alto: usize, bps: u32) -> Option<
    Seq<u8>,
>;

/// Crea un `openh264::encoder::Encoder` con `Encoder::with_api_config`
/// (`OpenH264API::from_source`, con `BitRate::from_bps(bps)`), convierte los bytes
/// RGB con `YUVBuffer::from_rgb8_source` y los codifica con `Encoder::encode`,
/// copiando el bitstream con `to_vec`. Con un codificador nuevo el resultado
/// depende sólo del frame: se lo nombra con [`h264_de_rgb`].
/// `RgbSliceU8::new` entra en pánico si los bytes no son tres por píxel o si
/// alguna dimensión es impar, por eso se exige lo contrario.
#[verifier::external_body]
fn codificar_h264(rgb: &[u8], ancho: usize, alto: usize, bps: u32) -> (r: Result<
    Vec<u8>,
    openh264::Error,
>)
    requires
        rgb@.len() == ancho * alto * 3,
        ancho % 2 == 0,
        alto % 2 == 0,
    ensures
        r is Ok <==> h264_de_rgb(rgb@, ancho, alto, bps) is Some,
        r matches Ok(v) ==> h264_de_rgb(rgb@, ancho, alto, bps) == Some(v@),
{
    let config = EncoderConfig::new().bitrate(BitRate::from_bps(bps));
    let mut codificador = Encoder::with_api_config(OpenH264API::from_source(), config)?;
    let yuv = YUVBuffer::from_rgb8_source(RgbSliceU8::new(rgb, (ancho, alto)));
    codificador.encode(&yuv).map(|b| b.to_vec())
}

/// Tipo de payload RTP de los paquetes de video.
pub const TIPO_PAYLOAD_VIDEO: u8 = 96;

/// Tipo de payload RTP de los paquetes de audio.
pub const TIPO_PAYLOAD_AUDIO: u8 = 11;

/// Jitter buffer al que va un paquete RTP recibido.
#[derive(Debug, Clone, Copy, PartialEq, Eq, Structural)]
pub enum DestinoPaquete {
    Audio,
    Video,
}

/// Destino de un paquete RTP recibido según su tipo de payload: los de
/// audio van al jitter buffer de audio y todos los demás al de video.
pub fn destino_por_tipo_payload(tipo_payload: u8) -> (r: DestinoPaquete)
    ensures
        tipo_payload == TIPO_PAYLOAD_AUDIO ==> r == DestinoPaquete::Audio,
        tipo_payload != TIPO_PAYLOAD_AUDIO ==> r == DestinoPaquete::Video,
{
    if tipo_payload == TIPO_PAYLOAD_AUDIO {
        DestinoPaquete::Audio
    } else {
        DestinoPaquete::Video
    }
}

/// Frame de la cámara en RGB, o el frame que marca el fin de la llamada.
#[derive(Debug, Clone)]
pub struct Frame {
    pub bytes: Vec<u8>,
    pub anchura: usize,
    pub altura: usize,
    pub es_frame_finalizacion: bool,
}

impl Frame {
    /// Frame con los bytes y dimensiones dados.
    pub fn new(bytes: Vec<u8>, anchura: usize, altura: usize) -> (r: Frame)
        ensures
            r.bytes@ == bytes@,
            r.anchura == anchura,
            r.altura == altura,
            !r.es_frame_finalizacion,
    {
        Frame { bytes, anchura, altura, es_frame_finalizacion: false }
    }

    /// Frame que marca el fin de la llamada: un píxel negro.
    pub fn frame_finalizacion() -> (r: Frame)
        ensures
            r.bytes@ == seq![0u8, 0u8, 0u8],
            r.anchura == 1,
            r.altura == 1,
            r.es_frame_finalizacion,
    {
        let bytes = vec![0u8, 0u8, 0u8];
        assert(bytes@ =~= seq![0u8, 0u8, 0u8]);
        Frame { bytes, anchura: 1, altura: 1, es_frame_finalizacion: true }
    }
}

/// Codifica un frame RGB en H.264 con un codificador nuevo a
/// [`BITRATE_VIDEO_BPS`] bits por segundo (ver [`h264_de_rgb`]). Los bytes
/// deben ser tres por píxel y las dimensiones pares.
pub fn encodear_frame(frame: Frame) -> (r: Result<Vec<u8>, ErrorComunicacionRTP>)
    requires
        frame.bytes@.len() == frame.anchura * frame.altura * 3,
        frame.anchura % 2 == 0,
        frame.altura % 2 == 0,
    ensures
        match h264_de_rgb(frame.bytes@, frame.anchura, frame.altura, BITRATE_VIDEO_BPS) {
            Some(v) => r matches Ok(b) && b@ == v,
            None => r == Err::<Vec<u8>, ErrorComunicacionRTP>(
                ErrorComunicacionRTP::ErrorEncodeandoFrame,
            ),
        },
{
    match codificar_h264(frame.bytes.as_slice(), frame.anchura, frame.altura, BITRATE_VIDEO_BPS) {
        Ok(bytes) => Ok(bytes),
        Err(_) => Err(ErrorComunicacionRTP::ErrorEncodeandoFrame),
    }
}

/// Extremos de los canales con la cámara, el reproductor de video, el
/// micrófono y el reproductor de audio.
pub struct ComunicadoresConIO {
    pub receiver_frames_camara: Receiver<Frame>,
    pub sender_frames_a_reproductor: Sender<Vec<u8>>,
    pub receiver_audio: Receiver<Vec<i16>>,
    pub sender_a_reproductor_audio: Sender<Vec<i16>>,
}

impl ComunicadoresConIO {
    /// Agrupa los extremos de los canales.
    pub fn new(
        receiver_frames_camara: Receiver<Frame>,
        sender_frames_a_reproductor: Sender<Vec<u8>>,
        receiver_audio: Receiver<Vec<i16>>,
        sender_a_reproductor_audio: Sender<Vec<i16>>,
    ) -> (r: ComunicadoresConIO)
        ensures
            r.receiver_frames_camara == receiver_frames_camara,
            r.sender_frames_a_reproductor == sender_frames_a_reproductor,
            r.receiver_audio == receiver_audio,
            r.sender_a_reproductor_audio == sender_a_reproductor_audio,
    {
        ComunicadoresConIO {
            receiver_frames_camara,
            sender_frames_a_reproductor,
            receiver_audio,
            sender_a_reproductor_audio,
        }
    }
}

/// Los dos bytes big-endian de una muestra de audio (como `i16::to_be_bytes`).
pub open spec fn bytes_de_muestra(x: i16) -> Seq<u8> {
    seq![((x as u16) / 256) as u8, ((x as u16) % 256) as u8]
}

/// Muestra de audio de dos bytes big-endian (como `i16::from_be_bytes`).
pub open spec fn muestra_de_bytes(alto: u8, bajo: u8) -> i16 {
    ((alto as int * 256 + bajo as int) as u16) as i16
}

/// Bytes de una secuencia de muestras, dos por muestra, en orden.
pub open spec fn bytes_de_audio(a: Seq<i16>) -> Seq<u8>
    decreases a.len(),
{
    if a.len() == 0 {
        Seq::empty()
    } else {
        bytes_de_audio(a.drop_last()) + bytes_de_muestra(a.last())
    }
}

/// Muestras de un payload de audio: una por cada par de bytes; si sobra un
/// byte al final, se ignora.
pub open spec fn audio_de_bytes(b: Seq<u8>) -> Seq<i16> {
    Seq::new(b.len() / 2, |i: int| muestra_de_bytes(b[2 * i], b[2 * i + 1]))
}

pub proof fn lema_bytes_de_audio(a: Seq<i16>)
    ensures
        bytes_de_audio(a).len() == 2 * a.len(),
        forall|i: int|
            0 <= i < a.len() ==> bytes_de_audio(a)[2 * i] == bytes_de_muestra(#[trigger] a[i])[0]
                && bytes_de_audio(a)[2 * i + 1] == bytes_de_muestra(a[i])[1],
    decreases a.len(),
{
    if a.len() > 0 {
        let prev = a.drop_last();
        lema_bytes_de_audio(prev);
        let b = bytes_de_audio(a);
        let bp = bytes_de_audio(prev);
        let m = bytes_de_muestra(a.last());
        assert(b == bp + m);
        assert forall|i: int| 0 <= i < a.len() implies b[2 * i] == bytes_de_muestra(
            #[trigger] a[i],
        )[0] && b[2 * i + 1] == bytes_de_muestra(a[i])[1] by {
            if i < a.len() - 1 {
                assert(prev[i] == a[i]);
                assert(b[2 * i] == bp[2 * i]);
                assert(b[2 * i + 1] == bp[2 * i + 1]);
            } else {
                assert(2 * i == bp.len());
                assert(b[2 * i] == m[0]);
                assert(b[2 * i + 1] == m[1]);
            }
        }
    }
}

/// Convierte muestras de audio en los bytes del payload RTP: dos bytes
/// big-endian por muestra.
pub fn obtener_bytes_audio_a_enviar(audio: Vec<i16>) -> (r: Vec<u8>)
    ensures
        r@ == bytes_de_audio(audio@),
{
    let mut r: Vec<u8> = Vec::new();
    let mut i: usize = 0;
    assert(audio@.take(0) =~= Seq::<i16>::empty());
    while i < audio.len()
        invariant
            i <= audio@.len(),
            r@ == bytes_de_audio(audio@.take(i as int)),
        decreases audio@.len() - i,
    {
        let x = audio[i];
        let u = x as u16;
        r.push((u / 256) as u8);
        r.push((u % 256) as u8);
        assert(audio@.take(i + 1).drop_last() =~= audio@.take(i as int));
        assert(audio@.take(i + 1).last() == x);
        assert(r@ =~= bytes_de_audio(audio@.take(i as int)) + bytes_de_muestra(x));
        i = i + 1;
    }
    assert(audio@.take(i as int) =~= audio@);
    r
}

/// Convierte un payload de audio en muestras: cada par de bytes es una
/// muestra big-endian; un byte suelto al final se ignora.
pub fn obtener_audio_de_bytes(payload: &[u8]) -> (r: Vec<i16>)
    ensures
        r@ == audio_de_bytes(payload@),
{
    let mut r: Vec<i16> = Vec::new();
    let mut i: usize = 0;
    let n = payload.len() / 2;
    while i < n
        invariant
            n == payload@.len() / 2,
            i <= n,
            r@.len() == i,
            forall|j: int| 0 <= j < i ==> r@[j] == muestra_de_bytes(payload@[2 * j], payload@[2 * j + 1]),
        decreases n - i,
    {
        assert(2 * i + 1 < payload@.len()) by (nonlinear_arith)
            requires
                i < n,
                n == payload@.len() / 2,
        ;
        let largo = payload.len();
        assert(2 * i + 1 < largo);
        let alto = payload[2 * i];
        let bajo = payload[2 * i + 1];
        let u: u16 = (alto as u16) * 256 + (bajo as u16);
        let muestra: i16 = #[verifier::truncate] (u as i16);
        r.push(muestra);
        i = i + 1;
    }
    assert(r@ =~= audio_de_bytes(payload@));
    r
}

/// Pasar muestras de audio a bytes y volver a leerlas devuelve las mismas
/// muestras.
pub proof fn ley_audio_ida_y_vuelta(a: Seq<i16>)
    ensures
        audio_de_bytes(bytes_de_audio(a)) == a,
{
    lema_bytes_de_audio(a);
    let b = bytes_de_audio(a);
    assert forall|i: int| 0 <= i < a.len() implies #[trigger] audio_de_bytes(b)[i] == a[i] by {
        let x = a[i];
        assert(b[2 * i] == bytes_de_muestra(x)[0]);
        assert(b[2 * i + 1] == bytes_de_muestra(x)[1]);
        assert(((((x as u16) / 256) as u8) as int * 256 + (((x as u16) % 256) as u8) as int) as u16
            == x as u16) by (bit_vector);
        assert(((x as u16) as i16) == x) by (bit_vector);
    }
    assert(audio_de_bytes(b) =~= a);
}

/// Estadísticas de envío luego de enviar un paquete de `tamanio_paquete`
/// bytes con el timestamp dado.
pub open spec fn tras_envio(e: EstadisticasSender, tamanio_paquete: u32, timestamp: u32) -> EstadisticasSender {
    EstadisticasSender {
        cantidad_paquetes_enviados: (e.cantidad_paquetes_enviados + 1) as u32,
        cantidad_bytes_enviados: (e.cantidad_bytes_enviados + tamanio_paquete) as u32,
        ultimo_numero_secuencia: (e.ultimo_numero_secuencia + 1) as u16,
        ultimo_timestamp_enviado: timestamp,
        ..e
    }
}

/// Registra el envío de un paquete: un paquete más, sus bytes, el número de
/// secuencia siguiente y su timestamp.
pub fn actualizar_estadisticas_sender(
    estadisticas: &mut EstadisticasSender,
    tamanio_paquete: u32,
    timestamp: u32,
)
    requires
        old(estadisticas).cantidad_paquetes_enviados < u32::MAX,
        old(estadisticas).cantidad_bytes_enviados + tamanio_paquete <= u32::MAX,
        old(estadisticas).ultimo_numero_secuencia < u16::MAX,
    ensures
        *final(estadisticas) == tras_envio(*old(estadisticas), tamanio_paquete, timestamp),
{
    estadisticas.cantidad_paquetes_enviados = estadisticas.cantidad_paquetes_enviados + 1;
    estadisticas.cantidad_bytes_enviados = estadisticas.cantidad_bytes_enviados + tamanio_paquete;
    estadisticas.ultimo_numero_secuencia = estadisticas.ultimo_numero_secuencia + 1;
    estadisticas.ultimo_timestamp_enviado = timestamp;
}

/// Datos con los que se arma el próximo paquete: SSRC, paquetes y bytes
/// enviados y número de secuencia.
pub fn obtener_datos_nuevo_paquete(estadisticas: &EstadisticasSender) -> (r: (u32, u32, u32, u16))
    ensures
        r == (
            estadisticas.ssrc,
            estadisticas.cantidad_paquetes_enviados,
            estadisticas.cantidad_bytes_enviados,
            estadisticas.ultimo_numero_secuencia,
        ),
{
    (
        estadisticas.ssrc,
        estadisticas.cantidad_paquetes_enviados,
        estadisticas.cantidad_bytes_enviados,
        estadisticas.ultimo_numero_secuencia,
    )
}

/// Estadísticas de una fuente luego de recibir de ella un paquete con el
/// número de secuencia dado.
pub open spec fn tras_recepcion(e: EstadisticasReceiver, numero_secuencia: u32) -> EstadisticasReceiver {
    EstadisticasReceiver {
        cantidad_paquetes_recibidos: (e.cantidad_paquetes_recibidos + 1) as u32,
        contenido_report: if numero_secuencia > e.contenido_report.numero_mas_grande_de_paquete_recibido {
            crate::protocolos::rtcp::ContenidoReport {
                numero_mas_grande_de_paquete_recibido: numero_secuencia,
                ..e.contenido_report
            }
        } else {
            e.contenido_report
        },
        ..e
    }
}

/// Registra la recepción de un paquete de la fuente `ssrc`: la crea si no
/// estaba, cuenta un paquete más y guarda el número de secuencia más alto.
pub fn actualizar_estadisticas_receiver(
    ssrc: u32,
    numero_secuencia: u32,
    estadisticas_receiver: &mut HashMap<u32, EstadisticasReceiver>,
)
    requires
        estadisticas_de(old(estadisticas_receiver)@, ssrc).cantidad_paquetes_recibidos < u32::MAX,
    ensures
        final(estadisticas_receiver)@ == old(estadisticas_receiver)@.insert(
            ssrc,
            tras_recepcion(estadisticas_de(old(estadisticas_receiver)@, ssrc), numero_secuencia),
        ),
{
    let mut reporte = match estadisticas_receiver.get(&ssrc) {
        Some(e) => *e,
        None => EstadisticasReceiver::new(ssrc),
    };
    reporte.cantidad_paquetes_recibidos = reporte.cantidad_paquetes_recibidos + 1;
    if numero_secuencia > reporte.contenido_report.numero_mas_grande_de_paquete_recibido {
        reporte.contenido_report.numero_mas_grande_de_paquete_recibido = numero_secuencia;
    }
    estadisticas_receiver.insert(ssrc, reporte);
}

/// Largo mínimo de un paquete RTP: su encabezado fijo.
pub const LARGO_MINIMO_PAQUETE_RTP: usize = 12;

/// SSRC de un paquete RTP: los bytes 8 a 11 del encabezado, big-endian.
pub open spec fn ssrc_de_encabezado(b: Seq<u8>) -> u32 {
    (b[8] * 0x1000000 + b[9] * 0x10000 + b[10] * 0x100 + b[11]) as u32
}

/// Primera decisión sobre un datagrama recibido por RTP: `Ok(None)` si es
/// el aviso de fin de llamada; un error si es más corto que el encabezado
/// RTP; si no, el SSRC del paquete (el encabezado no está cifrado).
pub fn clasificar_datagrama(bytes: &[u8]) -> (r: Result<Option<u32>, ErrorComunicacionRTP>)
    ensures
        bytes@ == bytes_fin_llamada() ==> r == Ok::<Option<u32>, ErrorComunicacionRTP>(None),
        bytes@ != bytes_fin_llamada() && bytes@.len() < LARGO_MINIMO_PAQUETE_RTP ==> r == Err::<
            Option<u32>,
            ErrorComunicacionRTP,
        >(ErrorComunicacionRTP::ErrorSerializarAPaquete),
        bytes@ != bytes_fin_llamada() && bytes@.len() >= LARGO_MINIMO_PAQUETE_RTP ==> r == Ok::<
            Option<u32>,
            ErrorComunicacionRTP,
        >(Some(ssrc_de_encabezado(bytes@))),
{
    if es_mensaje_finalizacion(bytes) {
        return Ok(None);
    }
    if bytes.len() < LARGO_MINIMO_PAQUETE_RTP {
        return Err(ErrorComunicacionRTP::ErrorSerializarAPaquete);
    }
    let b8 = bytes[8] as u32;
    let b9 = bytes[9] as u32;
    let b10 = bytes[10] as u32;
    let b11 = bytes[11] as u32;
    assert(b8 * 0x1000000 + b9 * 0x10000 + b10 * 0x100 + b11 <= 0xffffffff) by (nonlinear_arith)
        requires
            b8 <= 255,
            b9 <= 255,
            b10 <= 255,
            b11 <= 255,
    ;
    assert(b8 * 0x1000000 <= 0xff000000) by (nonlinear_arith)
        requires
            b8 <= 255,
    ;
    assert(b9 * 0x10000 <= 0xff0000) by (nonlinear_arith)
        requires
            b9 <= 255,
    ;
    let ssrc = b8 * 0x1000000 + b9 * 0x10000 + b10 * 0x100 + b11;
    Ok(Some(ssrc))
}

} // verus!
