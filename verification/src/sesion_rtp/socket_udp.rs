//! Socket UDP simulado para pruebas: guarda lo enviado y entrega, en orden,
//! datagramas preparados de antemano.
use vstd::prelude::*;

use crate::sesion_rtp::error::ErrorSocketUDP;

verus! {

/// Socket UDP simulado.
pub struct MockSocketUdp {
    pub bytes_enviados: Vec<u8>,
    pub bytes_que_se_leeran: Vec<Vec<u8>>,
    pub posicion_lectura: usize,
}

impl MockSocketUdp {
    /// Socket con lo ya enviado y los datagramas que devolverá al recibir.
    pub fn new(bytes_enviar: Vec<u8>, bytes_leer: Vec<Vec<u8>>) -> (r: MockSocketUdp)
        ensures
            r.bytes_enviados@ == bytes_enviar@,
            r.bytes_que_se_leeran@ == bytes_leer@,
            r.posicion_lectura == 0,
    {
        MockSocketUdp { bytes_enviados: bytes_enviar, bytes_que_se_leeran: bytes_leer, posicion_lectura: 0 }
    }

    /// "Envía" los datos: los agrega a lo enviado y devuelve su longitud.
    pub fn enviar(&mut self, data: &[u8]) -> (r: Result<usize, ErrorSocketUDP>)
        ensures
            r == Ok::<usize, ErrorSocketUDP>(data@.len() as usize),
            final(self).bytes_enviados@ == old(self).bytes_enviados@ + data@,
            final(self).bytes_que_se_leeran@ == old(self).bytes_que_se_leeran@,
            final(self).posicion_lectura == old(self).posicion_lectura,
    {
        let mut i: usize = 0;
        while i < data.len()
            invariant
                i <= data@.len(),
                self.bytes_enviados@ == old(self).bytes_enviados@ + data@.take(i as int),
                self.bytes_que_se_leeran@ == old(self).bytes_que_se_leeran@,
                self.posicion_lectura == old(self).posicion_lectura,
            decreases data@.len() - i,
        {
            assert(data@.take(i + 1) =~= data@.take(i as int).push(data@[i as int]));
            self.bytes_enviados.push(data[i]);
            i = i + 1;
        }
        assert(data@.take(i as int) =~= data@);
        Ok(data.len())
    }

    /// "Recibe" el próximo datagrama preparado: lo copia al principio del
    /// buffer y devuelve su longitud.
    pub fn recibir(&mut self, buffer: &mut [u8]) -> (r: Result<usize, ErrorSocketUDP>)
        requires
            old(self).posicion_lectura < old(self).bytes_que_se_leeran@.len(),
            old(self).bytes_que_se_leeran@[old(self).posicion_lectura as int]@.len() <= old(buffer)@.len(),
        ensures
            ({
                let d = old(self).bytes_que_se_leeran@[old(self).posicion_lectura as int]@;
                &&& r == Ok::<usize, ErrorSocketUDP>(d.len() as usize)
                &&& final(buffer)@ == d + old(buffer)@.skip(d.len() as int)
            }),
            final(self).posicion_lectura == old(self).posicion_lectura + 1,
            final(self).bytes_enviados@ == old(self).bytes_enviados@,
            final(self).bytes_que_se_leeran@ == old(self).bytes_que_se_leeran@,
    {
        let pos = self.posicion_lectura;
        let total = self.bytes_que_se_leeran.len();
        assert(pos < total);
        self.posicion_lectura = pos + 1;
        let datagrama = &self.bytes_que_se_leeran[pos];
        let n = datagrama.len();
        let mut i: usize = 0;
        while i < n
            invariant
                n == datagrama@.len(),
                n <= buffer@.len(),
                i <= n,
                buffer@.len() == old(buffer)@.len(),
                forall|j: int| 0 <= j < i ==> buffer@[j] == datagrama@[j],
                forall|j: int| n <= j < buffer@.len() ==> buffer@[j] == old(buffer)@[j],
            decreases n - i,
        {
            buffer[i] = datagrama[i];
            i = i + 1;
        }
        assert(buffer@ =~= datagrama@ + old(buffer)@.skip(n as int));
        Ok(n)
    }
}

} // verus!
