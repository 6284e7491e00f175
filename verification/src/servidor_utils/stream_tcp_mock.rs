//! Conexión TCP simulada para pruebas: entrega bytes preparados de antemano
//! y guarda lo que se le escribe.
use vstd::prelude::*;
use vstd::utf8::{decode_utf8, valid_utf8};

use crate::texto::{agregar_texto, caracteres, texto_desde};

verus! {

/// Errores de una conexión TCP con el cliente.
#[derive(Debug, Clone, Copy, PartialEq, Eq, Structural)]
pub enum ErrorStreamTCP {
    ErrorRecibiendoMensaje,
    ErrorEnviandoMensaje,
    ErrorClonando,
}

/// Tamaño máximo de lo que se lee de una vez como mensaje.
pub const TAMANIO_LECTURA_MENSAJE: usize = 24000;

/// Texto que produce `String::from_utf8_lossy` a partir de los bytes dados.
pub uninterp spec fn utf8_con_reemplazos(bytes: Seq<u8>) -> Seq<char>;

/// Llama a `String::from_utf8_lossy`, que según su documentación decodifica
/// los bytes como UTF-8 reemplazando cada secuencia inválida por U+FFFD;
/// con bytes UTF-8 válidos el resultado es su decodificación.
#[verifier::external_body]
fn texto_utf8_con_reemplazos(bytes: &[u8]) -> (r: String)
    ensures
        r@ == utf8_con_reemplazos(bytes@),
        valid_utf8(bytes@) ==> r@ == decode_utf8(bytes@),
{
    String::from_utf8_lossy(bytes).into_owned()
}

/// Conexión TCP simulada.
#[derive(Clone)]
pub struct MockStreamTCP {
    bytes_que_se_leeran: Vec<u8>,
    bytes_escritos: Vec<u8>,
    posicion_lectura: usize,
}

impl MockStreamTCP {
    /// Bytes que faltan leer.
    pub closed spec fn pendientes(&self) -> Seq<u8> {
        self.bytes_que_se_leeran@.skip(self.posicion_lectura as int)
    }

    /// Bytes escritos hasta ahora.
    pub closed spec fn escritos(&self) -> Seq<u8> {
        self.bytes_escritos@
    }

    /// La posición de lectura no pasa del final de los bytes preparados.
    pub closed spec fn bien_formado(&self) -> bool {
        self.posicion_lectura <= self.bytes_que_se_leeran@.len()
    }

    /// Conexión que entregará los bytes dados y no tiene nada escrito.
    pub fn new(bytes_que_se_leeran: Vec<u8>) -> (r: MockStreamTCP)
        ensures
            r.bien_formado(),
            r.pendientes() == bytes_que_se_leeran@,
            r.escritos() == Seq::<u8>::empty(),
    {
        let r = MockStreamTCP { bytes_que_se_leeran, bytes_escritos: Vec::new(), posicion_lectura: 0 };
        assert(r.bytes_que_se_leeran@.skip(0) =~= r.bytes_que_se_leeran@);
        r
    }

    /// Bytes escritos hasta ahora.
    pub fn bytes_escritos(&self) -> (r: &Vec<u8>)
        ensures
            r@ == self.escritos(),
    {
        &self.bytes_escritos
    }

    /// Agrega los bytes a lo escrito y devuelve cuántos son.
    pub fn write(&mut self, buf: &[u8]) -> (r: usize)
        ensures
            r == buf@.len(),
            final(self).escritos() == old(self).escritos() + buf@,
            final(self).pendientes() == old(self).pendientes(),
            final(self).bien_formado() == old(self).bien_formado(),
    {
        let mut i: usize = 0;
        while i < buf.len()
            invariant
                i <= buf@.len(),
                self.escritos() == old(self).escritos() + buf@.take(i as int),
                self.bytes_que_se_leeran@ == old(self).bytes_que_se_leeran@,
                self.posicion_lectura == old(self).posicion_lectura,
            decreases buf@.len() - i,
        {
            assert(buf@.take(i + 1) =~= buf@.take(i as int).push(buf@[i as int]));
            self.bytes_escritos.push(buf[i]);
            i = i + 1;
        }
        assert(buf@.take(i as int) =~= buf@);
        buf.len()
    }

    /// Copia al principio del buffer tantos bytes pendientes como quepan y
    /// devuelve cuántos copió (0 cuando no queda nada).
    pub fn read(&mut self, buffer: &mut [u8]) -> (r: usize)
        requires
            old(self).bien_formado(),
        ensures
            final(self).bien_formado(),
            r == if old(self).pendientes().len() < old(buffer)@.len() {
                old(self).pendientes().len()
            } else {
                old(buffer)@.len() as nat
            },
            final(buffer)@ == old(self).pendientes().take(r as int) + old(buffer)@.skip(r as int),
            final(self).pendientes() == old(self).pendientes().skip(r as int),
            final(self).escritos() == old(self).escritos(),
    {
        let pos = self.posicion_lectura;
        let restantes = self.bytes_que_se_leeran.len() - pos;
        let cantidad = if restantes < buffer.len() {
            restantes
        } else {
            buffer.len()
        };
        let ghost p = self.pendientes();
        let fin = pos + cantidad;
        let mut k: usize = pos;
        while k < fin
            invariant
                pos == self.posicion_lectura,
                fin == pos + cantidad,
                fin <= self.bytes_que_se_leeran@.len(),
                cantidad <= buffer@.len(),
                buffer@.len() == old(buffer)@.len(),
                p == self.bytes_que_se_leeran@.skip(pos as int),
                pos <= k <= fin,
                forall|j: int| 0 <= j < k - pos ==> buffer@[j] == p[j],
                forall|j: int| cantidad <= j < buffer@.len() ==> buffer@[j] == old(buffer)@[j],
            decreases fin - k,
        {
            buffer[k - pos] = self.bytes_que_se_leeran[k];
            k = k + 1;
        }
        self.posicion_lectura = pos + cantidad;
        assert(buffer@ =~= p.take(cantidad as int) + old(buffer)@.skip(cantidad as int));
        assert(self.pendientes() =~= p.skip(cantidad as int));
        cantidad
    }

    /// Lee de una vez hasta [`TAMANIO_LECTURA_MENSAJE`] bytes, agrega su
    /// texto (UTF-8, con reemplazos si es inválido) al final de `buffer` y
    /// devuelve cuántos bytes leyó. La conexión simulada nunca falla.
    pub fn leer_mensaje(&mut self, buffer: &mut String) -> (r: Result<usize, ErrorStreamTCP>)
        requires
            old(self).bien_formado(),
        ensures
            final(self).bien_formado(),
            ({
                let n = if old(self).pendientes().len() < TAMANIO_LECTURA_MENSAJE {
                    old(self).pendientes().len()
                } else {
                    TAMANIO_LECTURA_MENSAJE as nat
                };
                &&& r == Ok::<usize, ErrorStreamTCP>(n as usize)
                &&& final(buffer)@ == old(buffer)@ + utf8_con_reemplazos(
                    old(self).pendientes().take(n as int),
                )
                &&& final(self).pendientes() == old(self).pendientes().skip(n as int)
            }),
            final(self).escritos() == old(self).escritos(),
    {
        let ghost p = self.pendientes();
        let mut buf = vec![0u8; TAMANIO_LECTURA_MENSAJE];
        let ghost antes = buf@;
        let n = self.read(buf.as_mut_slice());
        let leidos = slice_inicial(buf.as_slice(), n);
        assert(leidos@ =~= p.take(n as int)) by {
            assert(buf@ == p.take(n as int) + antes.skip(n as int));
            assert(buf@.take(n as int) =~= p.take(n as int));
        }
        let texto = texto_utf8_con_reemplazos(leidos.as_slice());
        let mut v = caracteres(buffer.as_str());
        agregar_texto(&mut v, texto.as_str());
        *buffer = texto_desde(v.as_slice());
        Ok(n)
    }
}

/// Los primeros `n` bytes.
fn slice_inicial(b: &[u8], n: usize) -> (r: Vec<u8>)
    requires
        n <= b@.len(),
    ensures
        r@ == b@.take(n as int),
{
    let mut r: Vec<u8> = Vec::new();
    let mut i: usize = 0;
    while i < n
        invariant
            i <= n,
            n <= b@.len(),
            r@ == b@.take(i as int),
        decreases n - i,
    {
        assert(b@.take(i + 1) =~= b@.take(i as int).push(b@[i as int]));
        r.push(b[i]);
        i = i + 1;
    }
    r
}

} // verus!
