//! Contexto SRTP: cifrado del payload RTP con AES-128-CTR, autenticación
//! HMAC-SHA1-80, cálculo del índice de paquete (ROC + número de secuencia)
//! y ventana anti-replay de 64 paquetes.
use vstd::prelude::*;
use vstd::slice::{slice_subrange, slice_to_vec};
use std::collections::HashMap;

use crate::seguridad::primitivas::{
    aes_128_ctr_cifrado, aes_128_ctr_descifrado, calcular_hmac_sha1, cifrar_aes_128_ctr,
    descifrar_aes_128_ctr, hmac_sha1,
};
use crate::seguridad::srtp::errores::ErrorSRTP;
use crate::seguridad::srtp::srtp_clave_salt::SRTPClaveSalt;

verus! {

broadcast use vstd::std_specs::hash::group_hash_axioms;

/// Longitud del header RTP fijo.
pub const LONGITUD_HEADER_RTP: usize = 12;

/// Longitud del tag de autenticación HMAC-SHA1-80.
pub const LONGITUD_TAG: usize = 10;

/// Estado de recepción de un SSRC: rollover counter, secuencia más alta vista
/// y ventana anti-replay (el bit `k` indica si se recibió el índice `más alto - k`).
#[derive(Debug, Clone, Copy)]
pub struct EstadisticasSRTP {
    pub roc: u32,
    pub seq_mas_alto: u16,
    pub replay_window: u64,
}

/// Estado inicial de un SSRC que todavía no se vio.
pub open spec fn estadisticas_iniciales() -> EstadisticasSRTP {
    EstadisticasSRTP { roc: 0, seq_mas_alto: 0, replay_window: 0 }
}

impl Default for EstadisticasSRTP {
    fn default() -> (r: Self)
        ensures
            r == estadisticas_iniciales(),
    {
        EstadisticasSRTP { roc: 0, seq_mas_alto: 0, replay_window: 0 }
    }
}

/// Contexto SRTP de un sentido de la comunicación: clave, salt y estado por SSRC.
#[derive(Debug, Clone)]
pub struct SRTPContexto {
    pub clave_salt: SRTPClaveSalt,
    pub estadisticas_ssrc: HashMap<u32, EstadisticasSRTP>,
}

/// Estado de un SSRC en el mapa de estadísticas (el inicial si no figura).
pub open spec fn estadisticas_de(m: Map<u32, EstadisticasSRTP>, ssrc: u32) -> EstadisticasSRTP {
    if m.contains_key(ssrc) {
        m[ssrc]
    } else {
        estadisticas_iniciales()
    }
}

/// Rollover counter que corresponde a un número de secuencia recibido.
pub open spec fn roc_estimado(e: EstadisticasSRTP, seq: u16) -> u32 {
    if seq > e.seq_mas_alto {
        e.roc
    } else if e.seq_mas_alto - seq > 32768 {
        if e.roc == u32::MAX {
            0
        } else {
            (e.roc + 1) as u32
        }
    } else {
        e.roc
    }
}

/// Índice de 48 bits formado por un ROC y un número de secuencia.
pub open spec fn indice_desde(roc: u32, seq: u16) -> u64 {
    (roc * 65536 + seq) as u64
}

/// Índice de paquete que se asigna a un número de secuencia recibido.
pub open spec fn indice_paquete(e: EstadisticasSRTP, seq: u16) -> u64 {
    indice_desde(roc_estimado(e, seq), seq)
}

/// Índice más alto aceptado hasta ahora para un SSRC.
pub open spec fn indice_mas_alto(e: EstadisticasSRTP) -> u64 {
    indice_desde(e.roc, e.seq_mas_alto)
}

/// Resultado de la verificación anti-replay: el nuevo estado si el índice se
/// acepta, `None` si es un replay o está fuera de la ventana.
pub open spec fn verificacion_replay(e: EstadisticasSRTP, i: u64) -> Option<EstadisticasSRTP> {
    let alto = indice_mas_alto(e);
    if i > alto {
        let d = (i - alto) as u64;
        let w: u64 = if d >= 64 {
            1
        } else {
            (e.replay_window << d) | 1
        };
        Some(EstadisticasSRTP { roc: (i >> 16u64) as u32, seq_mas_alto: (i & 0xffffu64) as u16, replay_window: w })
    } else {
        let d = (alto - i) as u32;
        if d >= 64 {
            None
        } else if (e.replay_window >> d) & 1u64 == 1u64 {
            None
        } else {
            Some(
                EstadisticasSRTP {
                    roc: e.roc,
                    seq_mas_alto: e.seq_mas_alto,
                    replay_window: e.replay_window | (1u64 << d),
                },
            )
        }
    }
}

/// Número de 16 bits en big endian.
pub open spec fn be16(a: u8, b: u8) -> u16 {
    (a * 256 + b) as u16
}

/// Byte `i` (0 = más significativo) de un `u32` en big endian.
pub open spec fn byte_be_u32(x: u32, i: int) -> u8 {
    ((x >> ((8 * (3 - i)) as u32)) & 0xffu32) as u8
}

/// Byte `i` (0 = más significativo) de un `u64` en big endian.
pub open spec fn byte_be_u64(x: u64, i: int) -> u8 {
    ((x >> ((8 * (7 - i)) as u64)) & 0xffu64) as u8
}

/// Los cuatro bytes big endian de un `u32`.
pub open spec fn be32(x: u32) -> Seq<u8> {
    seq![byte_be_u32(x, 0), byte_be_u32(x, 1), byte_be_u32(x, 2), byte_be_u32(x, 3)]
}

/// IV de AES-CTR: los 14 bytes del salt desde la posición 2, con el SSRC
/// (bytes 4..8) y el índice de paquete (bytes 8..16) combinados por XOR.
pub open spec fn iv_srtp(salt: Seq<u8>, ssrc: u32, indice: u64) -> Seq<u8> {
    Seq::new(
        16,
        |k: int|
            if k < 2 {
                0u8
            } else if 4 <= k < 8 {
                salt[k - 2] ^ byte_be_u32(ssrc, k - 4)
            } else if 8 <= k {
                salt[k - 2] ^ byte_be_u64(indice, k - 8)
            } else {
                salt[k - 2]
            },
    )
}

/// Número de secuencia de un paquete RTP (bytes 2 y 3 del header).
pub open spec fn secuencia_rtp(p: Seq<u8>) -> u16 {
    be16(p[2], p[3])
}

/// Paquete RTP con el payload cifrado (el header queda intacto).
pub open spec fn rtp_cifrado(clave: Seq<u8>, salt: Seq<u8>, e: EstadisticasSRTP, ssrc: u32, p: Seq<
    u8,
>) -> Seq<u8> {
    p.take(12) + aes_128_ctr_cifrado(
        clave,
        iv_srtp(salt, ssrc, indice_paquete(e, secuencia_rtp(p))),
        p.skip(12),
    )
}

/// Tag HMAC-SHA1-80 de un paquete con el ROC dado.
pub open spec fn tag_autenticacion(clave: Seq<u8>, paquete: Seq<u8>, roc: u32) -> Seq<u8> {
    hmac_sha1(clave, paquete + be32(roc)).take(10)
}

/// Paquete SRTP: RTP con payload cifrado seguido del tag de autenticación.
pub open spec fn paquete_protegido(clave: Seq<u8>, salt: Seq<u8>, e: EstadisticasSRTP, ssrc: u32, p: Seq<
    u8,
>) -> Seq<u8> {
    let c = rtp_cifrado(clave, salt, e, ssrc, p);
    c + tag_autenticacion(clave, c, e.roc)
}

proof fn lema_indice_bits(r: u64, s: u64)
    requires
        r < 0x1_0000_0000,
        s < 0x10000,
    ensures
        (r << 16u64) | s == r * 65536 + s,
{
    assert((r << 16u64) | s == r * 65536 + s) by (bit_vector)
        requires
            r < 0x1_0000_0000,
            s < 0x10000,
    ;
}

impl SRTPContexto {
    /// Crea un contexto SRTP sin estado para ningún SSRC.
    pub fn new(clave_srtp: Vec<u8>, salt: Vec<u8>) -> (r: Self)
        ensures
            r.clave_salt.clave@ == clave_srtp@,
            r.clave_salt.salt@ == salt@,
            r.estadisticas_ssrc@ == Map::<u32, EstadisticasSRTP>::empty(),
    {
        SRTPContexto {
            clave_salt: SRTPClaveSalt { clave: clave_srtp, salt },
            estadisticas_ssrc: HashMap::new(),
        }
    }

    /// Devuelve el estado del SSRC, registrándolo con el estado inicial si no existía.
    pub fn obtener_estadisticas_srtp(&mut self, ssrc: u32) -> (r: Result<
        EstadisticasSRTP,
        ErrorSRTP,
    >)
        ensures
            r == Ok::<EstadisticasSRTP, ErrorSRTP>(
                estadisticas_de(old(self).estadisticas_ssrc@, ssrc),
            ),
            final(self).estadisticas_ssrc@ == old(self).estadisticas_ssrc@.insert(
                ssrc,
                estadisticas_de(old(self).estadisticas_ssrc@, ssrc),
            ),
            final(self).clave_salt == old(self).clave_salt,
    {
        let e = match self.estadisticas_ssrc.get(&ssrc) {
            Some(e) => *e,
            None => EstadisticasSRTP::default(),
        };
        self.estadisticas_ssrc.insert(ssrc, e);
        Ok(e)
    }

    /// Calcula el índice de 48 bits del paquete con número de secuencia `seq_recibido`
    /// (detectando el rollover), sin actualizar el estado del SSRC.
    pub fn calcular_indice_paquete(&mut self, ssrc: u32, seq_recibido: u16) -> (r: Result<
        u64,
        ErrorSRTP,
    >)
        ensures
            r == Ok::<u64, ErrorSRTP>(
                indice_paquete(estadisticas_de(old(self).estadisticas_ssrc@, ssrc), seq_recibido),
            ),
            final(self).estadisticas_ssrc@ == old(self).estadisticas_ssrc@.insert(
                ssrc,
                estadisticas_de(old(self).estadisticas_ssrc@, ssrc),
            ),
            final(self).clave_salt == old(self).clave_salt,
    {
        let estadisticas = self.obtener_estadisticas_srtp(ssrc)?;
        let seq_mas_alto = estadisticas.seq_mas_alto;
        let mut roc_candidato = estadisticas.roc;
        if seq_recibido > seq_mas_alto {
            // secuencia nueva: mismo ROC
        } else if seq_mas_alto.wrapping_sub(seq_recibido) > 32768 {
            // la secuencia volvió a empezar
            roc_candidato = roc_candidato.wrapping_add(1);
        }
        proof {
            lema_indice_bits(roc_candidato as u64, seq_recibido as u64);
        }
        Ok(((roc_candidato as u64) << 16u64) | (seq_recibido as u64))
    }

    /// Deriva el IV de AES-CTR para un SSRC e índice de paquete.
    pub fn derivar_iv(&self, ssrc: u32, indice_paquete: u64) -> (r: Result<[u8; 16], ErrorSRTP>)
        ensures
            self.clave_salt.salt@.len() != 14 ==> r matches Err(
                ErrorSRTP::ErrorClaveSaltInvalida(_),
            ),
            self.clave_salt.salt@.len() == 14 ==> (r matches Ok(iv) && iv@ == iv_srtp(
                self.clave_salt.salt@,
                ssrc,
                indice_paquete,
            )),
    {
        if self.clave_salt.salt.len() != 14 {
            return Err(
                ErrorSRTP::ErrorClaveSaltInvalida(
                    "El salt debe tener exactamente 14 bytes".to_string(),
                ),
            );
        }
        let s = &self.clave_salt.salt;
        let i = indice_paquete;
        let iv: [u8; 16] = [
            0u8,
            0u8,
            s[0],
            s[1],
            s[2] ^ ((ssrc >> 24u32) & 0xffu32) as u8,
            s[3] ^ ((ssrc >> 16u32) & 0xffu32) as u8,
            s[4] ^ ((ssrc >> 8u32) & 0xffu32) as u8,
            s[5] ^ ((ssrc >> 0u32) & 0xffu32) as u8,
            s[6] ^ ((i >> 56u64) & 0xffu64) as u8,
            s[7] ^ ((i >> 48u64) & 0xffu64) as u8,
            s[8] ^ ((i >> 40u64) & 0xffu64) as u8,
            s[9] ^ ((i >> 32u64) & 0xffu64) as u8,
            s[10] ^ ((i >> 24u64) & 0xffu64) as u8,
            s[11] ^ ((i >> 16u64) & 0xffu64) as u8,
            s[12] ^ ((i >> 8u64) & 0xffu64) as u8,
            s[13] ^ ((i >> 0u64) & 0xffu64) as u8,
        ];
        assert(iv@ =~= iv_srtp(self.clave_salt.salt@, ssrc, indice_paquete));
        Ok(iv)
    }
}


impl SRTPContexto {
    fn chequear_minimo_bytes_paquete(paquete: &[u8]) -> (r: Result<(), ErrorSRTP>)
        ensures
            paquete@.len() >= 12 ==> r is Ok,
            paquete@.len() < 12 ==> r matches Err(ErrorSRTP::ErrorPaqueteDemasiadoCorto(_)),
    {
        if paquete.len() < 12 {
            return Err(
                ErrorSRTP::ErrorPaqueteDemasiadoCorto(
                    "RTP header debe tener al menos 12 bytes".to_string(),
                ),
            );
        }
        Ok(())
    }

    fn asegurar_clave_longitud_igual_a_cipher(clave: &[u8]) -> (r: Result<(), ErrorSRTP>)
        ensures
            clave@.len() == 16 ==> r is Ok,
            clave@.len() != 16 ==> r matches Err(ErrorSRTP::ErrorClaveSaltInvalida(_)),
    {
        if clave.len() != 16 {
            return Err(
                ErrorSRTP::ErrorClaveSaltInvalida(
                    "Longitud de clave SRTP inválida: se esperaban 16 bytes".to_string(),
                ),
            );
        }
        Ok(())
    }

    fn asegurar_estabilidad_longitud_payload_post_operaciones_encriptacion(
        out_buf_len: usize,
        payload_len: usize,
    ) -> (r: Result<(), ErrorSRTP>)
        ensures
            out_buf_len == payload_len ==> r is Ok,
            out_buf_len != payload_len ==> r matches Err(ErrorSRTP::ErrorCifradoAES(_)),
    {
        if out_buf_len != payload_len {
            return Err(
                ErrorSRTP::ErrorCifradoAES("AES-CTR devolvió longitud inesperada".to_string()),
            );
        }
        Ok(())
    }

    fn verificacion_al_menos_10_bytes(tag: &[u8]) -> (r: Result<(), ErrorSRTP>)
        ensures
            tag@.len() >= 10 ==> r is Ok,
            tag@.len() < 10 ==> r matches Err(ErrorSRTP::ErrorHMAC(_)),
    {
        if tag.len() < 10 {
            return Err(
                ErrorSRTP::ErrorHMAC(
                    "Tag de autenticación SRTP debe tener al menos 10 bytes".to_string(),
                ),
            );
        }
        Ok(())
    }

    /// Cifra en el lugar el payload (bytes desde el 12) de un paquete RTP con
    /// AES-128-CTR, usando el IV del SSRC y del índice del paquete.
    pub fn proteger_rtp(&mut self, ssrc: u32, paquete: &mut Vec<u8>) -> (r: Result<(), ErrorSRTP>)
        requires
            old(paquete)@.len() <= i32::MAX - 16,
        ensures
            final(self).clave_salt == old(self).clave_salt,
            old(paquete)@.len() < 12 ==> r matches Err(ErrorSRTP::ErrorPaqueteDemasiadoCorto(_)),
            old(paquete)@.len() < 12 ==> final(self).estadisticas_ssrc@
                == old(self).estadisticas_ssrc@,
            old(paquete)@.len() >= 12 ==> final(self).estadisticas_ssrc@
                == old(self).estadisticas_ssrc@.insert(
                ssrc,
                estadisticas_de(old(self).estadisticas_ssrc@, ssrc),
            ),
            old(paquete)@.len() >= 12 && (old(self).clave_salt.salt@.len() != 14
                || old(self).clave_salt.clave@.len() != 16) ==> r matches Err(
                ErrorSRTP::ErrorClaveSaltInvalida(_),
            ),
            r matches Err(ErrorSRTP::ErrorPaqueteDemasiadoCorto(_)) ==> old(paquete)@.len() < 12,
            r matches Err(ErrorSRTP::ErrorClaveSaltInvalida(_)) ==> old(paquete)@.len() >= 12 && (
            old(self).clave_salt.salt@.len() != 14 || old(self).clave_salt.clave@.len() != 16),
            r is Err ==> final(paquete)@ == old(paquete)@,
            r matches Err(ErrorSRTP::ErrorCifradoAES(_)) ==> old(paquete)@.len() >= 12
                && old(self).clave_salt.salt@.len() == 14 && old(self).clave_salt.clave@.len()
                == 16,
            r matches Err(e) ==> e is ErrorPaqueteDemasiadoCorto || e is ErrorClaveSaltInvalida
                || e is ErrorCifradoAES,
            r is Ok ==> {
                &&& old(paquete)@.len() >= 12
                &&& old(self).clave_salt.salt@.len() == 14
                &&& old(self).clave_salt.clave@.len() == 16
                &&& final(paquete)@.len() == old(paquete)@.len()
                &&& final(paquete)@ == rtp_cifrado(
                    old(self).clave_salt.clave@,
                    old(self).clave_salt.salt@,
                    estadisticas_de(old(self).estadisticas_ssrc@, ssrc),
                    ssrc,
                    old(paquete)@,
                )
            },
    {
        Self::chequear_minimo_bytes_paquete(paquete.as_slice())?;
        let seq: u16 = (paquete[2] as u16) * 256 + (paquete[3] as u16);
        let indice_paquete = self.calcular_indice_paquete(ssrc, seq)?;
        let iv = self.derivar_iv(ssrc, indice_paquete)?;
        Self::asegurar_clave_longitud_igual_a_cipher(self.clave_salt.clave.as_slice())?;
        let largo = paquete.len();
        let payload = slice_subrange(paquete.as_slice(), 12, largo);
        let out_buf = match cifrar_aes_128_ctr(
            self.clave_salt.clave.as_slice(),
            iv.as_slice(),
            payload,
        ) {
            Ok(v) => v,
            Err(_) => {
                return Err(ErrorSRTP::ErrorCifradoAES("Error en AES-CTR (cifrado)".to_string()));
            },
        };
        Self::asegurar_estabilidad_longitud_payload_post_operaciones_encriptacion(
            out_buf.len(),
            payload.len(),
        )?;
        paquete.truncate(12);
        paquete.extend_from_slice(out_buf.as_slice());
        assert(paquete@ =~= rtp_cifrado(
            old(self).clave_salt.clave@,
            old(self).clave_salt.salt@,
            estadisticas_de(old(self).estadisticas_ssrc@, ssrc),
            ssrc,
            old(paquete)@,
        ));
        Ok(())
    }

    /// Calcula el tag HMAC-SHA1-80 de un paquete: los primeros 10 bytes del
    /// HMAC-SHA1 del paquete seguido del ROC del SSRC en big endian.
    pub fn generar_tag_autenticacion(&mut self, ssrc: u32, paquete: &[u8]) -> (r: Result<
        [u8; 10],
        ErrorSRTP,
    >)
        requires
            old(self).clave_salt.clave@.len() <= i32::MAX,
        ensures
            final(self).clave_salt == old(self).clave_salt,
            final(self).estadisticas_ssrc@ == old(self).estadisticas_ssrc@.insert(
                ssrc,
                estadisticas_de(old(self).estadisticas_ssrc@, ssrc),
            ),
            r matches Ok(t) ==> t@ == tag_autenticacion(
                old(self).clave_salt.clave@,
                paquete@,
                estadisticas_de(old(self).estadisticas_ssrc@, ssrc).roc,
            ),
            r matches Err(e) ==> e is ErrorHMAC,
    {
        let estadisticas = self.obtener_estadisticas_srtp(ssrc)?;
        let roc = estadisticas.roc;
        let mut datos = slice_to_vec(paquete);
        datos.push(((roc >> 24u32) & 0xffu32) as u8);
        datos.push(((roc >> 16u32) & 0xffu32) as u8);
        datos.push(((roc >> 8u32) & 0xffu32) as u8);
        datos.push(((roc >> 0u32) & 0xffu32) as u8);
        assert(datos@ =~= paquete@ + be32(roc));
        let mac_completo = match calcular_hmac_sha1(self.clave_salt.clave.as_slice(), datos.as_slice()) {
            Ok(m) => m,
            Err(_) => {
                return Err(ErrorSRTP::ErrorHMAC("Error en el cálculo de HMAC-SHA1".to_string()));
            },
        };
        Self::verificacion_al_menos_10_bytes(mac_completo.as_slice())?;
        let tag80: [u8; 10] = [
            mac_completo[0],
            mac_completo[1],
            mac_completo[2],
            mac_completo[3],
            mac_completo[4],
            mac_completo[5],
            mac_completo[6],
            mac_completo[7],
            mac_completo[8],
            mac_completo[9],
        ];
        assert(tag80@ =~= mac_completo@.take(10));
        Ok(tag80)
    }

    /// Convierte un paquete RTP en SRTP: cifra el payload y agrega el tag de
    /// autenticación HMAC-SHA1-80 al final.
    pub fn proteger_y_firmar_rtp(&mut self, ssrc: u32, paquete: &mut Vec<u8>) -> (r: Result<
        (),
        ErrorSRTP,
    >)
        requires
            old(paquete)@.len() <= i32::MAX - 16,
        ensures
            final(self).clave_salt == old(self).clave_salt,
            old(paquete)@.len() < 12 ==> r matches Err(ErrorSRTP::ErrorPaqueteDemasiadoCorto(_)),
            old(paquete)@.len() < 12 ==> final(self).estadisticas_ssrc@
                == old(self).estadisticas_ssrc@,
            old(paquete)@.len() >= 12 ==> final(self).estadisticas_ssrc@
                == old(self).estadisticas_ssrc@.insert(
                ssrc,
                estadisticas_de(old(self).estadisticas_ssrc@, ssrc),
            ),
            old(paquete)@.len() >= 12 && (old(self).clave_salt.salt@.len() != 14
                || old(self).clave_salt.clave@.len() != 16) ==> r matches Err(
                ErrorSRTP::ErrorClaveSaltInvalida(_),
            ),
            r matches Err(ErrorSRTP::ErrorPaqueteDemasiadoCorto(_)) ==> old(paquete)@.len() < 12,
            r matches Err(ErrorSRTP::ErrorClaveSaltInvalida(_)) ==> old(paquete)@.len() >= 12 && (
            old(self).clave_salt.salt@.len() != 14 || old(self).clave_salt.clave@.len() != 16),
            r matches Err(e) && (e is ErrorCifradoAES || e is ErrorHMAC) ==> old(paquete)@.len()
                >= 12 && old(self).clave_salt.salt@.len() == 14 && old(self).clave_salt.clave@.len()
                == 16,
            r matches Err(e) ==> e is ErrorPaqueteDemasiadoCorto || e is ErrorClaveSaltInvalida
                || e is ErrorCifradoAES || e is ErrorHMAC,
            r matches Err(e) && !(e is ErrorHMAC) ==> final(paquete)@ == old(paquete)@,
            r matches Err(ErrorSRTP::ErrorHMAC(_)) ==> final(paquete)@ == rtp_cifrado(
                old(self).clave_salt.clave@,
                old(self).clave_salt.salt@,
                estadisticas_de(old(self).estadisticas_ssrc@, ssrc),
                ssrc,
                old(paquete)@,
            ),
            r is Ok ==> {
                &&& old(paquete)@.len() >= 12
                &&& old(self).clave_salt.salt@.len() == 14
                &&& old(self).clave_salt.clave@.len() == 16
                &&& final(paquete)@.len() == old(paquete)@.len() + 10
                &&& rtp_cifrado(
                    old(self).clave_salt.clave@,
                    old(self).clave_salt.salt@,
                    estadisticas_de(old(self).estadisticas_ssrc@, ssrc),
                    ssrc,
                    old(paquete)@,
                ).len() == old(paquete)@.len()
                &&& final(paquete)@ == paquete_protegido(
                    old(self).clave_salt.clave@,
                    old(self).clave_salt.salt@,
                    estadisticas_de(old(self).estadisticas_ssrc@, ssrc),
                    ssrc,
                    old(paquete)@,
                )
            },
    {
        self.proteger_rtp(ssrc, paquete)?;
        let ghost cifrado = paquete@;
        let tag = self.generar_tag_autenticacion(ssrc, paquete.as_slice())?;
        assert(estadisticas_de(old(self).estadisticas_ssrc@.insert(
            ssrc,
            estadisticas_de(old(self).estadisticas_ssrc@, ssrc),
        ), ssrc) == estadisticas_de(old(self).estadisticas_ssrc@, ssrc));
        paquete.extend_from_slice(tag.as_slice());
        assert(paquete@ =~= cifrado + tag@);
        Ok(())
    }
}


/// Parte RTP (sin tag) de un paquete SRTP.
pub open spec fn rtp_de_srtp(q: Seq<u8>) -> Seq<u8> {
    q.take(q.len() - 10)
}

/// Tag de autenticación (últimos 10 bytes) de un paquete SRTP.
pub open spec fn tag_de_srtp(q: Seq<u8>) -> Seq<u8> {
    q.skip(q.len() - 10)
}

/// Índice que el receptor asigna a un paquete SRTP dado el estado del SSRC.
pub open spec fn indice_recibido(e: EstadisticasSRTP, q: Seq<u8>) -> u64 {
    indice_paquete(e, secuencia_rtp(rtp_de_srtp(q)))
}

impl SRTPContexto {
    fn verificar_paquete_viejo(&self, desplazamiento: u32) -> (r: Result<(), ErrorSRTP>)
        ensures
            desplazamiento < 64 ==> r is Ok,
            desplazamiento >= 64 ==> r matches Err(ErrorSRTP::ErrorReplay(_)),
    {
        if desplazamiento >= 64 {
            return Err(
                ErrorSRTP::ErrorReplay(
                    "Paquete SRTP fuera de ventana anti-replay (muy viejo)".to_string(),
                ),
            );
        }
        Ok(())
    }

    fn verificar_paquete_repetido(&self, desplazamiento: u32, replay_window: u64) -> (r: Result<
        (),
        ErrorSRTP,
    >)
        requires
            desplazamiento < 64,
        ensures
            (replay_window >> desplazamiento) & 1u64 != 1u64 ==> r is Ok,
            (replay_window >> desplazamiento) & 1u64 == 1u64 ==> r matches Err(
                ErrorSRTP::ErrorReplay(_),
            ),
    {
        if (replay_window >> desplazamiento) & 1u64 == 1u64 {
            return Err(ErrorSRTP::ErrorReplay("Paquete SRTP repetido (replay attack)".to_string()));
        }
        Ok(())
    }

    fn actualizar_por_paquete_nuevo(&mut self, ssrc: u32, index_recibido: u64, index_mas_alto: u64) -> (r:
        Result<(), ErrorSRTP>)
        requires
            index_recibido > index_mas_alto,
        ensures
            r is Ok,
            final(self).clave_salt == old(self).clave_salt,
            final(self).estadisticas_ssrc@ == old(self).estadisticas_ssrc@.insert(
                ssrc,
                EstadisticasSRTP {
                    roc: (index_recibido >> 16u64) as u32,
                    seq_mas_alto: (index_recibido & 0xffffu64) as u16,
                    replay_window: if index_recibido - index_mas_alto >= 64 {
                        1u64
                    } else {
                        (estadisticas_de(old(self).estadisticas_ssrc@, ssrc).replay_window << ((
                        index_recibido - index_mas_alto) as u64)) | 1u64
                    },
                },
            ),
    {
        let mut estadisticas = self.obtener_estadisticas_srtp(ssrc)?;
        let desplazamiento = index_recibido - index_mas_alto;
        if desplazamiento >= 64 {
            estadisticas.replay_window = 1;
        } else {
            estadisticas.replay_window = (estadisticas.replay_window << desplazamiento) | 1u64;
        }
        estadisticas.seq_mas_alto = (index_recibido & 0xffffu64) as u16;
        estadisticas.roc = (index_recibido >> 16u64) as u32;
        self.estadisticas_ssrc.insert(ssrc, estadisticas);
        Ok(())
    }

    /// Decide si se acepta el índice recibido según la ventana anti-replay de
    /// 64 paquetes y, si se acepta, actualiza el estado del SSRC.
    pub fn verificar_replay_y_actualizar(&mut self, ssrc: u32, index_recibido: u64) -> (r: Result<
        (),
        ErrorSRTP,
    >)
        ensures
            final(self).clave_salt == old(self).clave_salt,
            match verificacion_replay(
                estadisticas_de(old(self).estadisticas_ssrc@, ssrc),
                index_recibido,
            ) {
                None => {
                    &&& r matches Err(ErrorSRTP::ErrorReplay(_))
                    &&& final(self).estadisticas_ssrc@ == old(self).estadisticas_ssrc@.insert(
                        ssrc,
                        estadisticas_de(old(self).estadisticas_ssrc@, ssrc),
                    )
                },
                Some(e) => {
                    &&& r is Ok
                    &&& final(self).estadisticas_ssrc@ == old(self).estadisticas_ssrc@.insert(
                        ssrc,
                        e,
                    )
                },
            },
    {
        let estadisticas = self.obtener_estadisticas_srtp(ssrc)?;
        let roc = estadisticas.roc;
        let seq_mas_alto = estadisticas.seq_mas_alto;
        let replay_window = estadisticas.replay_window;
        proof {
            lema_indice_bits(roc as u64, seq_mas_alto as u64);
        }
        let index_mas_alto = ((roc as u64) << 16u64) | (seq_mas_alto as u64);
        if index_recibido > index_mas_alto {
            self.actualizar_por_paquete_nuevo(ssrc, index_recibido, index_mas_alto)?;
            return Ok(());
        }
        let desplazamiento_viejo = (index_mas_alto - index_recibido) as u32;
        self.verificar_paquete_viejo(desplazamiento_viejo)?;
        let desplazamiento = (index_mas_alto - index_recibido) as u32;
        self.verificar_paquete_repetido(desplazamiento, replay_window)?;
        let mut estadisticas = self.obtener_estadisticas_srtp(ssrc)?;
        estadisticas.replay_window = estadisticas.replay_window | (1u64 << desplazamiento);
        self.estadisticas_ssrc.insert(ssrc, estadisticas);
        Ok(())
    }

    /// Descifra en el lugar el payload (bytes desde el 12) de un paquete RTP
    /// cifrado con el IV del SSRC y del índice dados.
    pub fn descifrar_rtp(&self, ssrc: u32, indice_paquete: u64, paquete: &mut Vec<u8>) -> (r: Result<
        (),
        ErrorSRTP,
    >)
        requires
            old(paquete)@.len() <= i32::MAX - 16,
        ensures
            self.clave_salt.salt@.len() != 14 ==> r matches Err(
                ErrorSRTP::ErrorClaveSaltInvalida(_),
            ),
            self.clave_salt.salt@.len() == 14 && old(paquete)@.len() < 12 ==> r matches Err(
                ErrorSRTP::ErrorPaqueteDemasiadoCorto(_),
            ),
            self.clave_salt.salt@.len() == 14 && old(paquete)@.len() >= 12
                && self.clave_salt.clave@.len() != 16 ==> r matches Err(
                ErrorSRTP::ErrorClaveSaltInvalida(_),
            ),
            r matches Err(e) ==> e is ErrorPaqueteDemasiadoCorto || e is ErrorClaveSaltInvalida
                || e is ErrorCifradoAES,
            r matches Err(ErrorSRTP::ErrorCifradoAES(_)) ==> self.clave_salt.salt@.len() == 14
                && old(paquete)@.len() >= 12 && self.clave_salt.clave@.len() == 16,
            r matches Err(ErrorSRTP::ErrorPaqueteDemasiadoCorto(_)) ==> old(paquete)@.len() < 12,
            r matches Err(ErrorSRTP::ErrorClaveSaltInvalida(_)) ==> self.clave_salt.salt@.len() != 14
                || self.clave_salt.clave@.len() != 16,
            r is Err ==> final(paquete)@ == old(paquete)@,
            r is Ok ==> {
                &&& self.clave_salt.salt@.len() == 14
                &&& self.clave_salt.clave@.len() == 16
                &&& old(paquete)@.len() >= 12
                &&& final(paquete)@.len() == old(paquete)@.len()
                &&& final(paquete)@ == old(paquete)@.take(12) + aes_128_ctr_descifrado(
                    self.clave_salt.clave@,
                    iv_srtp(self.clave_salt.salt@, ssrc, indice_paquete),
                    old(paquete)@.skip(12),
                )
            },
            r is Ok ==> forall|p: Seq<u8>|
                old(paquete)@.skip(12) == #[trigger] aes_128_ctr_cifrado(
                    self.clave_salt.clave@,
                    iv_srtp(self.clave_salt.salt@, ssrc, indice_paquete),
                    p,
                ) ==> final(paquete)@ == old(paquete)@.take(12) + p,
    {
        let iv = self.derivar_iv(ssrc, indice_paquete)?;
        Self::chequear_minimo_bytes_paquete(paquete.as_slice())?;
        Self::asegurar_clave_longitud_igual_a_cipher(self.clave_salt.clave.as_slice())?;
        let largo = paquete.len();
        let payload = slice_subrange(paquete.as_slice(), 12, largo);
        let out_buf = match descifrar_aes_128_ctr(
            self.clave_salt.clave.as_slice(),
            iv.as_slice(),
            payload,
        ) {
            Ok(v) => v,
            Err(_) => {
                return Err(
                    ErrorSRTP::ErrorCifradoAES("Error en AES-CTR (desencriptado)".to_string()),
                );
            },
        };
        Self::asegurar_estabilidad_longitud_payload_post_operaciones_encriptacion(
            out_buf.len(),
            payload.len(),
        )?;
        let ghost previo = paquete@;
        paquete.truncate(12);
        paquete.extend_from_slice(out_buf.as_slice());
        assert(paquete@ =~= previo.take(12) + out_buf@);
        Ok(())
    }

    fn calcular_longitud_rtp(paquete_srtp: &[u8]) -> (r: Result<usize, ErrorSRTP>)
        ensures
            paquete_srtp@.len() >= 22 ==> r == Ok::<usize, ErrorSRTP>(
                (paquete_srtp@.len() - 10) as usize,
            ),
            paquete_srtp@.len() < 22 ==> r matches Err(ErrorSRTP::ErrorPaqueteDemasiadoCorto(_)),
    {
        Self::validar_longitud_header_tag(paquete_srtp)?;
        Ok(paquete_srtp.len() - 10)
    }

    fn validar_longitud_header_tag(paquete_srtp: &[u8]) -> (r: Result<(), ErrorSRTP>)
        ensures
            paquete_srtp@.len() >= 22 ==> r is Ok,
            paquete_srtp@.len() < 22 ==> r matches Err(ErrorSRTP::ErrorPaqueteDemasiadoCorto(_)),
    {
        if paquete_srtp.len() < 12 + 10 {
            return Err(
                ErrorSRTP::ErrorPaqueteDemasiadoCorto(
                    "SRTP demasiado corto: falta header o tag".to_string(),
                ),
            );
        }
        Ok(())
    }

    fn validar_longitud_rtp_seq(paquete_rtp: &[u8]) -> (r: Result<(), ErrorSRTP>)
        ensures
            paquete_rtp@.len() >= 12 ==> r is Ok,
            paquete_rtp@.len() < 12 ==> r matches Err(ErrorSRTP::ErrorPaqueteDemasiadoCorto(_)),
    {
        if paquete_rtp.len() < 12 {
            return Err(
                ErrorSRTP::ErrorPaqueteDemasiadoCorto(
                    "RTP header debe tener al menos 12 bytes".to_string(),
                ),
            );
        }
        Ok(())
    }

    fn validar_igualdad_tags(tag_esperado: &[u8], tag_recibido: &[u8]) -> (r: Result<(), ErrorSRTP>)
        ensures
            tag_esperado@ == tag_recibido@ ==> r is Ok,
            tag_esperado@ != tag_recibido@ ==> r matches Err(ErrorSRTP::ErrorHMAC(_)),
    {
        let iguales = if tag_esperado.len() != tag_recibido.len() {
            false
        } else {
            let mut i: usize = 0;
            let mut iguales = true;
            while i < tag_esperado.len()
                invariant
                    tag_esperado@.len() == tag_recibido@.len(),
                    i <= tag_esperado@.len(),
                    iguales == (forall|j: int| 0 <= j < i ==> tag_esperado@[j] == tag_recibido@[j]),
                decreases tag_esperado@.len() - i,
            {
                if tag_esperado[i] != tag_recibido[i] {
                    iguales = false;
                }
                i = i + 1;
            }
            if iguales {
                assert(tag_esperado@ =~= tag_recibido@);
            }
            iguales
        };
        if !iguales {
            return Err(
                ErrorSRTP::ErrorHMAC(
                    "Tag de autenticación SRTP inválido (HMAC no coincide)".to_string(),
                ),
            );
        }
        Ok(())
    }

    /// Verifica un paquete SRTP (anti-replay y tag HMAC-SHA1-80), descifra su
    /// payload y lo deja convertido en el paquete RTP sin proteger (sin tag).
    pub fn verificar_y_desproteger_rtp(&mut self, ssrc: u32, paquete_srtp: &mut Vec<u8>) -> (r:
        Result<(), ErrorSRTP>)
        requires
            old(self).clave_salt.clave@.len() <= i32::MAX,
            old(paquete_srtp)@.len() <= i32::MAX - 16,
        ensures
            final(self).clave_salt == old(self).clave_salt,
            r is Err ==> final(paquete_srtp)@ == old(paquete_srtp)@,
            r matches Err(e) ==> !(e is ErrorInterno),
            old(paquete_srtp)@.len() < 22 ==> {
                &&& r matches Err(ErrorSRTP::ErrorPaqueteDemasiadoCorto(_))
                &&& final(self).estadisticas_ssrc@ == old(self).estadisticas_ssrc@
            },
            old(paquete_srtp)@.len() >= 22 ==> ({
                let q = old(paquete_srtp)@;
                let e0 = estadisticas_de(old(self).estadisticas_ssrc@, ssrc);
                let i = indice_recibido(e0, q);
                let clave = old(self).clave_salt.clave@;
                let salt = old(self).clave_salt.salt@;
                &&& !(r matches Err(ErrorSRTP::ErrorPaqueteDemasiadoCorto(_)))
                &&& match verificacion_replay(e0, i) {
                    None => {
                        &&& r matches Err(ErrorSRTP::ErrorReplay(_))
                        &&& final(self).estadisticas_ssrc@ == old(self).estadisticas_ssrc@.insert(
                            ssrc,
                            e0,
                        )
                    },
                    Some(e1) => {
                        &&& !(r matches Err(ErrorSRTP::ErrorReplay(_)))
                        &&& final(self).estadisticas_ssrc@ == old(self).estadisticas_ssrc@.insert(
                            ssrc,
                            e1,
                        )
                        &&& tag_de_srtp(q) != tag_autenticacion(clave, rtp_de_srtp(q), e1.roc)
                            ==> (r matches Err(ErrorSRTP::ErrorHMAC(_)))
                        &&& r is Ok ==> {
                            &&& tag_de_srtp(q) == tag_autenticacion(
                                clave,
                                rtp_de_srtp(q),
                                e1.roc,
                            )
                            &&& salt.len() == 14
                            &&& clave.len() == 16
                            &&& final(paquete_srtp)@ == rtp_de_srtp(q).take(12)
                                + aes_128_ctr_descifrado(
                                clave,
                                iv_srtp(salt, ssrc, i),
                                rtp_de_srtp(q).skip(12),
                            )
                        }
                        &&& r is Ok ==> descifrado_aceptable(
                            final(paquete_srtp)@,
                            q,
                            clave,
                            iv_srtp(salt, ssrc, i),
                        )
                        &&& (r matches Err(ErrorSRTP::ErrorClaveSaltInvalida(_))) ==> salt.len()
                            != 14 || clave.len() != 16
                    },
                }
            }),
    {
        let len_rtp = Self::calcular_longitud_rtp(paquete_srtp.as_slice())?;
        let largo = paquete_srtp.len();
        let mut rtp_bytes = slice_to_vec(slice_subrange(paquete_srtp.as_slice(), 0, len_rtp));
        let tag_recibido = slice_to_vec(slice_subrange(paquete_srtp.as_slice(), len_rtp, largo));
        assert(rtp_bytes@ =~= rtp_de_srtp(old(paquete_srtp)@));
        assert(tag_recibido@ =~= tag_de_srtp(old(paquete_srtp)@));
        Self::validar_longitud_rtp_seq(rtp_bytes.as_slice())?;
        let seq: u16 = (rtp_bytes[2] as u16) * 256 + (rtp_bytes[3] as u16);
        let indice_paquete = self.calcular_indice_paquete(ssrc, seq)?;
        self.verificar_replay_y_actualizar(ssrc, indice_paquete)?;
        let tag_esperado = self.generar_tag_autenticacion(ssrc, rtp_bytes.as_slice())?;
        Self::validar_igualdad_tags(tag_esperado.as_slice(), tag_recibido.as_slice())?;
        self.descifrar_rtp(ssrc, indice_paquete, &mut rtp_bytes)?;
        *paquete_srtp = rtp_bytes;
        Ok(())
    }
}

/// Lo que `verificar_y_desproteger_rtp` asegura de su resultado cuando tiene
/// éxito: si el payload cifrado del paquete SRTP `q` es el cifrado de algún
/// texto con la clave y el IV dados, el resultado es el header seguido de ese texto.
pub open spec fn descifrado_aceptable(out: Seq<u8>, q: Seq<u8>, clave: Seq<u8>, iv: Seq<u8>) -> bool {
    forall|x: Seq<u8>|
        rtp_de_srtp(q).skip(12) == #[trigger] aes_128_ctr_cifrado(clave, iv, x) ==> out
            == rtp_de_srtp(q).take(12) + x
}

/// Ley de ida y vuelta con contextos nuevos: el paquete que produce
/// `proteger_y_firmar_rtp` en un contexto sin estado para el SSRC es aceptado
/// por la ventana anti-replay de un contexto receptor también sin estado, su tag
/// coincide con el que el receptor recalcula, y el payload cifrado es el cifrado
/// del payload sin cifrar con el mismo IV con que el receptor descifra; por lo
/// tanto, todo resultado que cumpla lo que `verificar_y_desproteger_rtp`
/// asegura cuando tiene éxito es el paquete sin proteger. Las longitudes que
/// pide son las que asegura una llamada exitosa a `proteger_y_firmar_rtp`.
pub proof fn ley_ida_y_vuelta_contextos_nuevos(clave: Seq<u8>, salt: Seq<u8>, ssrc: u32, p: Seq<
    u8,
>)
    requires
        p.len() >= 12,
        paquete_protegido(clave, salt, estadisticas_iniciales(), ssrc, p).len() == p.len() + 10,
        rtp_cifrado(clave, salt, estadisticas_iniciales(), ssrc, p).len() == p.len(),
    ensures
        ({
            let q = paquete_protegido(clave, salt, estadisticas_iniciales(), ssrc, p);
            let e0 = estadisticas_iniciales();
            let i = indice_recibido(e0, q);
            &&& q.len() >= 22
            &&& i == indice_paquete(e0, secuencia_rtp(p))
            &&& rtp_de_srtp(q).take(12) == p.take(12)
            &&& rtp_de_srtp(q).skip(12) == aes_128_ctr_cifrado(
                clave,
                iv_srtp(salt, ssrc, i),
                p.skip(12),
            )
            &&& verificacion_replay(e0, i) matches Some(e1) && tag_de_srtp(q) == tag_autenticacion(
                clave,
                rtp_de_srtp(q),
                e1.roc,
            )
            &&& rtp_de_srtp(q).take(12) + p.skip(12) == p
            &&& forall|out: Seq<u8>|
                #[trigger] descifrado_aceptable(out, q, clave, iv_srtp(salt, ssrc, i)) ==> out == p
        }),
{
    let e0 = estadisticas_iniciales();
    let c = rtp_cifrado(clave, salt, e0, ssrc, p);
    let q = paquete_protegido(clave, salt, e0, ssrc, p);
    assert(q == c + tag_autenticacion(clave, c, 0));
    assert(rtp_de_srtp(q) =~= c);
    assert(tag_de_srtp(q) =~= tag_autenticacion(clave, c, 0));
    assert(c.take(12) =~= p.take(12));
    assert(c[2] == p[2] && c[3] == p[3]);
    let seq = secuencia_rtp(p);
    assert(secuencia_rtp(c) == seq);
    let i = indice_paquete(e0, seq);
    assert(c.skip(12) =~= aes_128_ctr_cifrado(clave, iv_srtp(salt, ssrc, i), p.skip(12)));
    assert(i == seq as u64);
    assert((i >> 16u64) as u32 == 0) by (bit_vector)
        requires
            i < 65536,
    ;
    assert(p.take(12) + p.skip(12) =~= p);
    assert(indice_mas_alto(e0) == 0);
    if i == 0 {
        assert((0u64 >> 0u32) & 1u64 == 0u64) by (bit_vector);
    }
    assert(verificacion_replay(e0, i) is Some);
}


proof fn lema_descomposicion_indice(i: u64)
    requires
        i < 0x1_0000_0000_0000,
    ensures
        indice_desde((i >> 16u64) as u32, (i & 0xffffu64) as u16) == i,
{
    let r = ((i >> 16u64) as u32) as u64;
    let s = ((i & 0xffffu64) as u16) as u64;
    assert(r * 65536 + s == i) by (bit_vector)
        requires
            i < 0x1_0000_0000_0000,
            r == ((i >> 16u64) as u32) as u64,
            s == ((i & 0xffffu64) as u16) as u64,
    ;
}

/// Ley anti-replay: un índice de 48 bits que la ventana acaba de aceptar es
/// rechazado si se vuelve a presentar.
pub proof fn ley_replay_rechaza_repetido(e: EstadisticasSRTP, i: u64)
    requires
        i < 0x1_0000_0000_0000,
        verificacion_replay(e, i) is Some,
    ensures
        verificacion_replay(verificacion_replay(e, i)->0, i) is None,
{
    let e2 = verificacion_replay(e, i)->0;
    let alto = indice_mas_alto(e);
    if i > alto {
        lema_descomposicion_indice(i);
        assert(indice_mas_alto(e2) == i);
        let w = e2.replay_window;
        let d = (i - alto) as u64;
        let v = e.replay_window;
        assert(d >= 64 ==> w == 1u64);
        assert(d < 64 ==> w == (v << d) | 1u64);
        assert((1u64 >> 0u32) & 1u64 == 1u64) by (bit_vector);
        assert(((v << d) | 1u64) >> 0u32 & 1u64 == 1u64) by (bit_vector);
    } else {
        let d = (alto - i) as u32;
        let v = e.replay_window;
        assert(d < 64);
        assert((v | (1u64 << d)) >> d & 1u64 == 1u64) by (bit_vector)
            requires
                d < 64,
        ;
    }
}

/// Ley anti-replay: un índice que quedó 64 o más posiciones por debajo del
/// más alto aceptado (con una distancia menor a 2^32) es rechazado.
pub proof fn ley_replay_rechaza_viejo(e: EstadisticasSRTP, i: u64)
    requires
        i + 64 <= indice_mas_alto(e),
        indice_mas_alto(e) - i < 0x1_0000_0000,
    ensures
        verificacion_replay(e, i) is None,
{
}

/// Ley anti-replay: aceptar un índice de 48 bits nunca hace retroceder el
/// índice más alto aceptado, que pasa a ser el máximo entre el anterior y el
/// recibido; el rechazo no cambia nada.
pub proof fn ley_replay_indice_mas_alto_monotono(e: EstadisticasSRTP, i: u64)
    requires
        i < 0x1_0000_0000_0000,
        verificacion_replay(e, i) is Some,
    ensures
        indice_mas_alto(verificacion_replay(e, i)->0) == if i > indice_mas_alto(e) {
            i
        } else {
            indice_mas_alto(e)
        },
{
    if i > indice_mas_alto(e) {
        lema_descomposicion_indice(i);
    }
}

/// El índice que se asigna a un número de secuencia siempre cabe en 48 bits y
/// sus 16 bits bajos son ese número de secuencia.
pub proof fn ley_indice_paquete_48_bits(e: EstadisticasSRTP, seq: u16)
    ensures
        indice_paquete(e, seq) < 0x1_0000_0000_0000,
        indice_paquete(e, seq) % 65536 == seq,
{
}

proof fn lema_partes_indice(r: u32, s: u16)
    ensures
        (indice_desde(r, s) >> 16u64) as u32 == r,
        (indice_desde(r, s) & 0xffffu64) as u16 == s,
{
    let x = indice_desde(r, s);
    assert(r * 65536 + s < 0x1_0000_0000_0000) by (nonlinear_arith)
        requires
            r <= u32::MAX,
            s <= u16::MAX,
    ;
    assert(x == (r as u64) * 65536 + (s as u64));
    assert((x >> 16u64) as u32 == r && (x & 0xffffu64) as u16 == s) by (bit_vector)
        requires
            x == (r as u64) * 65536 + (s as u64),
    ;
}

/// Ley anti-replay de punta a punta: si la ventana de un SSRC acepta un
/// paquete SRTP, el mismo paquete presentado otra vez con el estado
/// resultante recibe el mismo índice y la ventana lo rechaza. Con el contrato
/// de `verificar_y_desproteger_rtp` (que actualiza el estado del SSRC con la
/// ventana y responde `ErrorReplay`, sin tocar el paquete, cuando la ventana
/// rechaza), un mismo paquete se acepta a lo sumo una vez.
pub proof fn ley_paquete_aceptado_una_vez(e0: EstadisticasSRTP, q: Seq<u8>)
    requires
        q.len() >= 22,
        verificacion_replay(e0, indice_recibido(e0, q)) is Some,
    ensures
        ({
            let e1 = verificacion_replay(e0, indice_recibido(e0, q))->0;
            &&& indice_recibido(e1, q) == indice_recibido(e0, q)
            &&& verificacion_replay(e1, indice_recibido(e1, q)) is None
        }),
{
    let i = indice_recibido(e0, q);
    let seq = secuencia_rtp(rtp_de_srtp(q));
    let e1 = verificacion_replay(e0, i)->0;
    lema_partes_indice(roc_estimado(e0, seq), seq);
    if i > indice_mas_alto(e0) {
        assert(e1.roc == roc_estimado(e0, seq));
        assert(e1.seq_mas_alto == seq);
        assert(roc_estimado(e1, seq) == e1.roc);
    } else {
        assert(e1.roc == e0.roc && e1.seq_mas_alto == e0.seq_mas_alto);
        assert(roc_estimado(e1, seq) == roc_estimado(e0, seq));
    }
    assert(indice_recibido(e1, q) == i);
    assert(i < 0x1_0000_0000_0000) by (nonlinear_arith)
        requires
            i == indice_desde(roc_estimado(e0, seq), seq),
            roc_estimado(e0, seq) <= u32::MAX,
            seq <= u16::MAX,
    ;
    ley_replay_rechaza_repetido(e0, i);
}

/// Un mismo paquete SRTP se acepta a lo sumo una vez, sobre el estado de
/// todos los SSRC que guarda el contexto: si la ventana del SSRC acepta el
/// paquete (y `verificar_y_desproteger_rtp` guarda el estado resultante para
/// ese SSRC, tenga o no éxito lo demás), presentarlo otra vez con ese estado
/// lo rechaza la ventana, con lo que `verificar_y_desproteger_rtp` responde
/// `ErrorReplay` y deja el paquete como estaba.
pub proof fn ley_contexto_acepta_una_vez(m: Map<u32, EstadisticasSRTP>, ssrc: u32, q: Seq<u8>)
    requires
        q.len() >= 22,
        verificacion_replay(estadisticas_de(m, ssrc), indice_recibido(estadisticas_de(m, ssrc), q))
            is Some,
    ensures
        ({
            let e0 = estadisticas_de(m, ssrc);
            let m1 = m.insert(ssrc, verificacion_replay(e0, indice_recibido(e0, q))->0);
            let e1 = estadisticas_de(m1, ssrc);
            verificacion_replay(e1, indice_recibido(e1, q)) is None
        }),
{
    ley_paquete_aceptado_una_vez(estadisticas_de(m, ssrc), q);
}

/// Índice de paquete de un número de secuencia recibido, en términos del
/// ROC y del número de secuencia más alto aceptados: si la secuencia volvió
/// a empezar (el más alto la supera en más de 32768) el índice es el del ROC
/// siguiente, y queda por encima del más alto; si no, es el del mismo ROC.
pub proof fn ley_indice_tras_vuelta_de_secuencia(e: EstadisticasSRTP, seq: u16)
    ensures
        e.seq_mas_alto - seq > 32768 && e.roc < u32::MAX ==> {
            &&& indice_paquete(e, seq) == (e.roc + 1) * 65536 + seq
            &&& indice_paquete(e, seq) > indice_mas_alto(e)
        },
        e.seq_mas_alto - seq > 32768 && e.roc == u32::MAX ==> indice_paquete(e, seq) == seq,
        e.seq_mas_alto - seq <= 32768 ==> indice_paquete(e, seq) == e.roc * 65536 + seq,
        e.seq_mas_alto <= seq ==> indice_paquete(e, seq) >= indice_mas_alto(e),
        0 <= e.seq_mas_alto - seq <= 32768 ==> indice_mas_alto(e) - indice_paquete(e, seq)
            == e.seq_mas_alto - seq,
{
    assert(0 <= e.roc * 65536 + seq < 0x1_0000_0000_0000) by (nonlinear_arith)
        requires
            e.roc <= u32::MAX,
            seq <= u16::MAX,
    ;
    assert(0 <= e.roc * 65536 + e.seq_mas_alto < 0x1_0000_0000_0000) by (nonlinear_arith)
        requires
            e.roc <= u32::MAX,
            e.seq_mas_alto <= u16::MAX,
    ;
    if e.seq_mas_alto - seq > 32768 && e.roc < u32::MAX {
        assert(0 <= (e.roc + 1) * 65536 + seq < 0x1_0000_0000_0000) by (nonlinear_arith)
            requires
                e.roc < u32::MAX,
                seq <= u16::MAX,
        ;
        assert((e.roc + 1) * 65536 == e.roc * 65536 + 65536) by (nonlinear_arith);
    }
}

} // verus!
