//! Gestión del jitter buffer. La recepción de paquetes y la entrega de
//! payloads corren en hilos distintos que comparten un
//! [`EstadoJitterBuffer`]; aquí están las decisiones de cada paso, y quien
//! hace correr los hilos realiza las esperas y los envíos por canal.
use vstd::prelude::*;
use std::collections::BTreeMap;

use crate::sesion_rtp::comunicacion_rtp::{audio_de_bytes, obtener_audio_de_bytes};
use crate::sesion_rtp::jitter_buffer::mensaje_jitter_buffer::MensajeJitterBuffer;

verus! {

broadcast use {vstd::std_specs::btree::group_btree_axioms, vstd::laws_cmp::group_laws_cmp};

/// Diferencia máxima, en unidades de timestamp, entre el video y el audio
/// para mostrar un frame.
pub const TOLERANCIA: u32 = 3000;

/// Cantidad de entregas seguidas con el mismo timestamp de audio a partir
/// de la cual se deja de sincronizar con el audio (el audio se pausó).
pub const LIMITE_AUDIO_SIN_VARIAR: u32 = 8;

/// Timestamp y payload de un paquete RTP recibido.
pub struct InformacionPaqueteRTP {
    pub timestamp: u32,
    pub payload: Vec<u8>,
}

/// Llama a `BTreeMap::pop_first`, que según su documentación quita y
/// devuelve el par de clave mínima, o `None` si el mapa está vacío.
#[verifier::external_body]
fn quitar_primero(m: &mut BTreeMap<u32, Vec<u8>>) -> (r: Option<(u32, Vec<u8>)>)
    ensures
        r is None <==> old(m)@.dom().is_empty(),
        r is None ==> final(m)@ == old(m)@,
        r matches Some(p) ==> {
            &&& old(m)@.contains_key(p.0)
            &&& old(m)@[p.0] == p.1
            &&& final(m)@ == old(m)@.remove(p.0)
            &&& forall|k: u32| old(m)@.contains_key(k) ==> p.0 <= k
        },
{
    m.pop_first()
}

/// Llama a `BTreeMap::first_key_value`, que según su documentación
/// devuelve el par de clave mínima, o `None` si el mapa está vacío; de ese
/// par se toma la clave.
#[verifier::external_body]
fn clave_primera(m: &BTreeMap<u32, Vec<u8>>) -> (r: Option<u32>)
    ensures
        r is None <==> m@.dom().is_empty(),
        r matches Some(k) ==> {
            &&& m@.contains_key(k)
            &&& forall|j: u32| m@.contains_key(j) ==> k <= j
        },
{
    m.first_key_value().map(|(k, _)| *k)
}

/// Clave mínima de un mapa no vacío.
pub open spec fn clave_minima(m: Map<u32, Seq<u8>>) -> u32 {
    choose|k: u32| m.contains_key(k) && forall|j: u32| m.contains_key(j) ==> k <= j
}

/// El mapa sin su clave mínima (igual si está vacío).
pub open spec fn sin_minimo(m: Map<u32, Seq<u8>>) -> Map<u32, Seq<u8>> {
    if m.dom().is_empty() {
        m
    } else {
        m.remove(clave_minima(m))
    }
}

/// Estado compartido del jitter buffer: los payloads por timestamp, su
/// capacidad, el timestamp del último payload entregado y si terminó la llamada.
pub struct EstadoJitterBuffer {
    paquetes: BTreeMap<u32, Vec<u8>>,
    tam_buffer: usize,
    ultimo_timestamp: u32,
    llamada_finalizada: bool,
}

/// Contenido de un [`EstadoJitterBuffer`].
pub struct EstadoJitterBufferV {
    pub paquetes: Map<u32, Seq<u8>>,
    pub tam_buffer: usize,
    pub ultimo_timestamp: u32,
    pub llamada_finalizada: bool,
}

impl View for EstadoJitterBuffer {
    type V = EstadoJitterBufferV;

    closed spec fn view(&self) -> EstadoJitterBufferV {
        EstadoJitterBufferV {
            paquetes: self.paquetes@.map_values(|v: Vec<u8>| v@),
            tam_buffer: self.tam_buffer,
            ultimo_timestamp: self.ultimo_timestamp,
            llamada_finalizada: self.llamada_finalizada,
        }
    }
}

/// Paquetes del buffer luego de recibir uno con el timestamp y payload
/// dados: se descarta si es anterior al último entregado; si no, se guarda,
/// sacando antes el de timestamp más chico si el buffer está lleno.
pub open spec fn tras_recibir(e: EstadoJitterBufferV, timestamp: u32, payload: Seq<u8>) -> Map<
    u32,
    Seq<u8>,
> {
    if e.ultimo_timestamp > timestamp {
        e.paquetes
    } else if e.paquetes.len() < e.tam_buffer {
        e.paquetes.insert(timestamp, payload)
    } else {
        sin_minimo(e.paquetes).insert(timestamp, payload)
    }
}

/// Resultado de un paso de la entrega de video.
pub enum PasoVideo {
    /// Entregar este frame al decodificador.
    Enviar(u32, Vec<u8>),
    /// Frame descartado por estar atrasado respecto del audio.
    DescartadoAtrasado(u32),
    /// Frame descartado por estar adelantado respecto del audio: esperar un
    /// momento antes del paso siguiente.
    DescartadoAdelantado(u32),
    /// No hay frames en el buffer.
    Vacio,
}

/// Estado de la sincronización del video con el audio: cuántas entregas
/// seguidas vieron el mismo timestamp de audio, y cuál.
pub struct SincronizacionVideo {
    pub contador: u32,
    pub timestamp_anterior_audio: u32,
}

impl SincronizacionVideo {
    /// Sincronización inicial.
    pub fn new() -> (r: Self)
        ensures
            r.contador == 0,
            r.timestamp_anterior_audio == 0,
    {
        SincronizacionVideo { contador: 0, timestamp_anterior_audio: 0 }
    }
}

impl EstadoJitterBuffer {
    /// Buffer vacío con capacidad `tam_buffer`.
    pub fn new(tam_buffer: usize) -> (r: Self)
        ensures
            r@.paquetes == Map::<u32, Seq<u8>>::empty(),
            r@.tam_buffer == tam_buffer,
            r@.ultimo_timestamp == 0,
            !r@.llamada_finalizada,
    {
        let r = EstadoJitterBuffer {
            paquetes: BTreeMap::new(),
            tam_buffer,
            ultimo_timestamp: 0,
            llamada_finalizada: false,
        };
        assert(r@.paquetes =~= Map::<u32, Seq<u8>>::empty());
        r
    }

    /// Buffer con timestamp de la última entrega dado (como si ya se
    /// hubiera entregado un payload con ese timestamp).
    pub fn con_ultimo_timestamp(tam_buffer: usize, ultimo_timestamp: u32) -> (r: Self)
        ensures
            r@.paquetes == Map::<u32, Seq<u8>>::empty(),
            r@.tam_buffer == tam_buffer,
            r@.ultimo_timestamp == ultimo_timestamp,
            !r@.llamada_finalizada,
    {
        let mut r = Self::new(tam_buffer);
        r.ultimo_timestamp = ultimo_timestamp;
        r
    }

    /// Indica si terminó la llamada.
    pub fn llamada_finalizada(&self) -> (r: bool)
        ensures
            r == self@.llamada_finalizada,
    {
        self.llamada_finalizada
    }

    /// Timestamp del último payload entregado.
    pub fn ultimo_timestamp(&self) -> (r: u32)
        ensures
            r == self@.ultimo_timestamp,
    {
        self.ultimo_timestamp
    }

    /// Payload guardado con el timestamp dado, si lo hay.
    pub fn obtener(&self, timestamp: u32) -> (r: Option<&Vec<u8>>)
        ensures
            match r {
                Some(v) => self@.paquetes.contains_key(timestamp) && self@.paquetes[timestamp]
                    == v@,
                None => !self@.paquetes.contains_key(timestamp),
            },
    {
        self.paquetes.get(&timestamp)
    }

    /// Timestamp más chico guardado, si hay alguno.
    pub fn primer_timestamp(&self) -> (r: Option<u32>)
        ensures
            r is None <==> self@.paquetes.dom().is_empty(),
            r matches Some(k) ==> k == clave_minima(self@.paquetes),
    {
        assert(self@.paquetes.dom() =~= self.paquetes@.dom());
        let r = clave_primera(&self.paquetes);
        if let Some(k) = r {
            let ghost c = clave_minima(self@.paquetes);
            assert(self@.paquetes.contains_key(k));
            assert(self@.paquetes.contains_key(c) && forall|j: u32|
                self@.paquetes.contains_key(j) ==> c <= j);
            assert(k == c);
        }
        r
    }

    /// Cantidad de payloads guardados.
    pub fn cantidad(&self) -> (r: usize)
        ensures
            r == self@.paquetes.len(),
    {
        assert(self@.paquetes.dom() =~= self.paquetes@.dom());
        self.paquetes.len()
    }

    /// Procesa un mensaje recibido y devuelve si hay que seguir escuchando.
    /// El fin de la llamada marca el buffer como terminado; un paquete se
    /// descarta si es anterior al último entregado y si no se guarda,
    /// sacando antes el de timestamp más chico si el buffer está lleno.
    pub fn recibir_mensaje(&mut self, mensaje: MensajeJitterBuffer) -> (seguir: bool)
        ensures
            match mensaje {
                MensajeJitterBuffer::MensajeFinalizacionLlamada => {
                    &&& !seguir
                    &&& final(self)@.llamada_finalizada
                    &&& final(self)@.paquetes == old(self)@.paquetes
                },
                MensajeJitterBuffer::InformacionPaqueteRTP(info) => {
                    &&& seguir
                    &&& final(self)@.llamada_finalizada == old(self)@.llamada_finalizada
                    &&& final(self)@.paquetes == tras_recibir(
                        old(self)@,
                        info.timestamp,
                        info.payload@,
                    )
                },
            },
            final(self)@.tam_buffer == old(self)@.tam_buffer,
            final(self)@.ultimo_timestamp == old(self)@.ultimo_timestamp,
            final(self)@.paquetes.dom().finite(),
            old(self)@.paquetes.len() <= capacidad_efectiva(old(self)@.tam_buffer)
                ==> final(self)@.paquetes.len() <= capacidad_efectiva(old(self)@.tam_buffer),
    {
        let ghost e0 = self@;
        proof {
            lema_paquetes_finitos(&*self);
        }
        match mensaje {
            MensajeJitterBuffer::MensajeFinalizacionLlamada => {
                self.llamada_finalizada = true;
                false
            },
            MensajeJitterBuffer::InformacionPaqueteRTP(info) => {
                proof {
                    if e0.paquetes.len() <= capacidad_efectiva(e0.tam_buffer) {
                        ley_capacidad_jitter_buffer(e0, info.timestamp, info.payload@);
                    }
                }
                if self.ultimo_timestamp > info.timestamp {
                    return true;
                }
                let ghost antes = self@.paquetes;
                assert(antes.dom() =~= self.paquetes@.dom());
                let ghost pv = info.payload@;
                if self.paquetes.len() < self.tam_buffer {
                    self.paquetes.insert(info.timestamp, info.payload);
                    assert(self@.paquetes =~= antes.insert(info.timestamp, pv));
                } else {
                    let quitado = quitar_primero(&mut self.paquetes);
                    match quitado {
                        Some(p) => {
                            let ghost k = p.0;
                            assert(antes.contains_key(k) && forall|j: u32|
                                antes.contains_key(j) ==> k <= j);
                            let ghost c = clave_minima(antes);
                            assert(antes.contains_key(c) && forall|j: u32|
                                antes.contains_key(j) ==> c <= j);
                            assert(k == c);
                            assert(!antes.dom().is_empty()) by {
                                assert(antes.dom().contains(k));
                            }
                        },
                        None => {},
                    }
                    self.paquetes.insert(info.timestamp, info.payload);
                    assert(self@.paquetes =~= sin_minimo(antes).insert(info.timestamp, pv));
                }
                true
            },
        }
    }

    /// Registra que se entregó el payload con el timestamp dado.
    pub fn confirmar_entrega(&mut self, timestamp: u32)
        ensures
            final(self)@.ultimo_timestamp == timestamp,
            final(self)@.paquetes == old(self)@.paquetes,
            final(self)@.tam_buffer == old(self)@.tam_buffer,
            final(self)@.llamada_finalizada == old(self)@.llamada_finalizada,
    {
        self.ultimo_timestamp = timestamp;
    }

    fn sacar_primero(&mut self) -> (r: Option<(u32, Vec<u8>)>)
        ensures
            r is None <==> old(self)@.paquetes.dom().is_empty(),
            r is None ==> final(self)@ == old(self)@,
            r matches Some(p) ==> {
                &&& p.0 == clave_minima(old(self)@.paquetes)
                &&& old(self)@.paquetes.contains_key(p.0)
                &&& old(self)@.paquetes[p.0] == p.1@
                &&& final(self)@.paquetes == old(self)@.paquetes.remove(p.0)
            },
            final(self)@.tam_buffer == old(self)@.tam_buffer,
            final(self)@.ultimo_timestamp == old(self)@.ultimo_timestamp,
            final(self)@.llamada_finalizada == old(self)@.llamada_finalizada,
    {
        let ghost antes = self@.paquetes;
        assert(antes.dom() =~= self.paquetes@.dom());
        let r = quitar_primero(&mut self.paquetes);
        match &r {
            Some(p) => {
                let ghost k = p.0;
                assert(antes.contains_key(k) && forall|j: u32| antes.contains_key(j) ==> k <= j);
                let ghost c = clave_minima(antes);
                assert(antes.contains_key(c) && forall|j: u32| antes.contains_key(j) ==> c <= j);
                assert(k == c);
                assert(self@.paquetes =~= antes.remove(k));
            },
            None => {
                assert(self@.paquetes =~= antes);
            },
        }
        r
    }
}

/// Entrega de video.
pub struct JitterBufferVideo;

/// Decisión sobre el frame de timestamp `ts` según el timestamp del audio y
/// el contador de la sincronización ya actualizado.
pub open spec fn decision_video(ts: u32, timestamp_audio: u32, contador: u32) -> int {
    if contador <= LIMITE_AUDIO_SIN_VARIAR && ts + TOLERANCIA < timestamp_audio {
        1
    } else if contador <= LIMITE_AUDIO_SIN_VARIAR && ts > TOLERANCIA + timestamp_audio {
        2
    } else {
        0
    }
}

impl JitterBufferVideo {
    /// Un paso de la entrega de video: saca el frame de timestamp más chico
    /// y decide, según el timestamp del audio, si entregarlo o descartarlo
    /// por atrasado o adelantado. Mientras el audio no varía más de
    /// [`LIMITE_AUDIO_SIN_VARIAR`] entregas seguidas, un frame a más de
    /// [`TOLERANCIA`] del audio se descarta; después se entrega igual.
    #[verifier::rlimit(40)]
    pub fn paso(
        estado: &mut EstadoJitterBuffer,
        sincronizacion: &mut SincronizacionVideo,
        timestamp_audio: u32,
    ) -> (r: PasoVideo)
        requires
            old(sincronizacion).contador < u32::MAX,
        ensures
            final(estado)@.tam_buffer == old(estado)@.tam_buffer,
            final(estado)@.ultimo_timestamp == old(estado)@.ultimo_timestamp,
            final(estado)@.llamada_finalizada == old(estado)@.llamada_finalizada,
            old(estado)@.paquetes.dom().is_empty() ==> (r is Vacio && final(estado)@.paquetes
                == old(estado)@.paquetes && *final(sincronizacion) == *old(sincronizacion)),
            !old(estado)@.paquetes.dom().is_empty() ==> {
                let ts = clave_minima(old(estado)@.paquetes);
                let contador = if timestamp_audio == old(sincronizacion).timestamp_anterior_audio {
                    (old(sincronizacion).contador + 1) as u32
                } else {
                    0u32
                };
                &&& final(estado)@.paquetes == old(estado)@.paquetes.remove(ts)
                &&& final(sincronizacion).contador == contador
                &&& final(sincronizacion).timestamp_anterior_audio == timestamp_audio
                &&& decision_video(ts, timestamp_audio, contador) == 1 ==> r == PasoVideo::DescartadoAtrasado(ts)
                &&& decision_video(ts, timestamp_audio, contador) == 2 ==> r == PasoVideo::DescartadoAdelantado(ts)
                &&& decision_video(ts, timestamp_audio, contador) == 0 ==> (r matches PasoVideo::Enviar(t, p) && t == ts && p@ == old(estado)@.paquetes[ts])
            },
    {
        match estado.sacar_primero() {
            None => PasoVideo::Vacio,
            Some((timestamp, payload)) => {
                if timestamp_audio == sincronizacion.timestamp_anterior_audio {
                    sincronizacion.contador = sincronizacion.contador + 1;
                } else {
                    sincronizacion.contador = 0;
                    sincronizacion.timestamp_anterior_audio = timestamp_audio;
                }
                if sincronizacion.contador <= LIMITE_AUDIO_SIN_VARIAR {
                    let ts: u64 = timestamp as u64;
                    let audio: u64 = timestamp_audio as u64;
                    let tolerancia: u64 = TOLERANCIA as u64;
                    if ts + tolerancia < audio {
                        return PasoVideo::DescartadoAtrasado(timestamp);
                    }
                    if ts > tolerancia + audio {
                        return PasoVideo::DescartadoAdelantado(timestamp);
                    }
                }
                PasoVideo::Enviar(timestamp, payload)
            },
        }
    }
}

/// Entrega de audio.
pub struct JitterBufferAudio;

impl JitterBufferAudio {
    /// Un paso de la entrega de audio: saca el payload de timestamp más
    /// chico y lo convierte en muestras (pares de bytes big-endian).
    pub fn paso(estado: &mut EstadoJitterBuffer) -> (r: Option<(u32, Vec<i16>)>)
        ensures
            final(estado)@.tam_buffer == old(estado)@.tam_buffer,
            final(estado)@.ultimo_timestamp == old(estado)@.ultimo_timestamp,
            final(estado)@.llamada_finalizada == old(estado)@.llamada_finalizada,
            old(estado)@.paquetes.dom().is_empty() ==> (r is None && final(estado)@.paquetes
                == old(estado)@.paquetes),
            !old(estado)@.paquetes.dom().is_empty() ==> {
                let ts = clave_minima(old(estado)@.paquetes);
                &&& final(estado)@.paquetes == old(estado)@.paquetes.remove(ts)
                &&& r matches Some(p) && p.0 == ts && p.1@ == audio_de_bytes(old(estado)@.paquetes[ts])
            },
    {
        match estado.sacar_primero() {
            None => None,
            Some((timestamp, payload)) => Some((timestamp, obtener_audio_de_bytes(payload.as_slice()))),
        }
    }
}

/// Los timestamps guardados en un buffer son finitos.
pub proof fn lema_paquetes_finitos(e: &EstadoJitterBuffer)
    ensures
        e@.paquetes.dom().finite(),
{
    assert(e@.paquetes.dom() =~= e.paquetes@.dom());
}

/// Capacidad efectiva del buffer: con capacidad 0 igual se guarda el
/// último paquete recibido.
pub open spec fn capacidad_efectiva(tam_buffer: usize) -> nat {
    if tam_buffer == 0 {
        1
    } else {
        tam_buffer as nat
    }
}

/// Recibir un paquete nunca deja en el buffer más paquetes que su capacidad
/// (o uno, si la capacidad es 0), y nunca guarda un paquete anterior al
/// último entregado.
pub proof fn ley_capacidad_jitter_buffer(e: EstadoJitterBufferV, timestamp: u32, payload: Seq<u8>)
    requires
        e.paquetes.dom().finite(),
        e.paquetes.len() <= capacidad_efectiva(e.tam_buffer),
    ensures
        tras_recibir(e, timestamp, payload).dom().finite(),
        tras_recibir(e, timestamp, payload).len() <= capacidad_efectiva(e.tam_buffer),
        e.ultimo_timestamp > timestamp ==> tras_recibir(e, timestamp, payload) == e.paquetes,
        e.ultimo_timestamp <= timestamp ==> tras_recibir(e, timestamp, payload).contains_key(
            timestamp,
        ),
{
    let m = e.paquetes;
    if e.ultimo_timestamp > timestamp {
    } else if m.len() < e.tam_buffer {
        assert(m.insert(timestamp, payload).dom() =~= m.dom().insert(timestamp));
    } else {
        let r = sin_minimo(m);
        if m.dom().is_empty() {
            assert(r == m);
            assert(m.dom() =~= Set::<u32>::empty());
            assert(r.insert(timestamp, payload).dom() =~= set![timestamp]);
        } else {
            lema_hay_minimo(m.dom());
            let k = clave_minima(m);
            assert(m.dom().contains(k));
            assert(r.dom() =~= m.dom().remove(k));
            assert(r.insert(timestamp, payload).dom() =~= r.dom().insert(timestamp));
        }
    }
}

/// Paquetes del buffer luego de recibir, en orden, los paquetes dados
/// (timestamp y payload), sin entregas de por medio.
pub open spec fn tras_recibir_serie(e: EstadoJitterBufferV, ps: Seq<(u32, Seq<u8>)>) -> Map<
    u32,
    Seq<u8>,
>
    decreases ps.len(),
{
    if ps.len() == 0 {
        e.paquetes
    } else {
        tras_recibir(
            EstadoJitterBufferV { paquetes: tras_recibir_serie(e, ps.drop_last()), ..e },
            ps.last().0,
            ps.last().1,
        )
    }
}

/// Recibir cualquier serie de paquetes (y por lo tanto cada uno de sus
/// prefijos, es decir, después de cada mensaje) nunca deja en el buffer más
/// paquetes que su capacidad (o uno, si la capacidad es 0), y ningún
/// timestamp nuevo en el buffer es anterior al del último payload entregado.
pub proof fn ley_capacidad_en_toda_serie(e: EstadoJitterBufferV, ps: Seq<(u32, Seq<u8>)>)
    requires
        e.paquetes.dom().finite(),
        e.paquetes.len() <= capacidad_efectiva(e.tam_buffer),
    ensures
        tras_recibir_serie(e, ps).dom().finite(),
        tras_recibir_serie(e, ps).len() <= capacidad_efectiva(e.tam_buffer),
        forall|k: u32|
            #[trigger] tras_recibir_serie(e, ps).contains_key(k) && !e.paquetes.contains_key(k)
                ==> e.ultimo_timestamp <= k,
    decreases ps.len(),
{
    if ps.len() > 0 {
        let previo = tras_recibir_serie(e, ps.drop_last());
        ley_capacidad_en_toda_serie(e, ps.drop_last());
        let e1 = EstadoJitterBufferV { paquetes: previo, ..e };
        ley_capacidad_jitter_buffer(e1, ps.last().0, ps.last().1);
        lema_claves_tras_recibir(e1, ps.last().0, ps.last().1);
    }
}

/// Recibir un paquete sólo puede agregar su timestamp, y sólo si no es
/// anterior al del último payload entregado.
proof fn lema_claves_tras_recibir(e: EstadoJitterBufferV, timestamp: u32, payload: Seq<u8>)
    ensures
        forall|k: u32|
            #[trigger] tras_recibir(e, timestamp, payload).contains_key(k) && !e.paquetes.contains_key(k)
                ==> k == timestamp && e.ultimo_timestamp <= timestamp,
{
    let m = e.paquetes;
    if e.ultimo_timestamp <= timestamp && m.len() >= e.tam_buffer && !m.dom().is_empty() {
        let k = clave_minima(m);
        assert(sin_minimo(m) == m.remove(k));
    }
}

proof fn lema_hay_minimo(s: Set<u32>)
    requires
        s.finite(),
        !s.is_empty(),
    ensures
        exists|k: u32| s.contains(k) && forall|j: u32| s.contains(j) ==> k <= j,
    decreases s.len(),
{
    let a = s.choose();
    assert(s.contains(a));
    let t = s.remove(a);
    if t.is_empty() {
        assert forall|j: u32| s.contains(j) implies a <= j by {
            if j != a {
                assert(t.contains(j));
            }
        }
    } else {
        assert(t.len() < s.len()) by {
            assert(s.len() == t.len() + 1);
        }
        lema_hay_minimo(t);
        let b = choose|k: u32| t.contains(k) && forall|j: u32| t.contains(j) ==> k <= j;
        let m = if a < b {
            a
        } else {
            b
        };
        assert forall|j: u32| s.contains(j) implies m <= j by {
            if j != a {
                assert(t.contains(j));
            }
        }
        assert(s.contains(m));
    }
}

} // verus!
