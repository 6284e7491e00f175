//! Tablas del servidor central que se recorren en orden: los estados de los
//! usuarios (pares usuario-estado sin claves repetidas) y el conjunto de
//! usuarios disponibles (sin repetidos).
//!
//! Son vectores y no `HashMap`/`HashSet`: el servidor recorre estas tablas
//! para avisar a los disponibles y listar los estados, y el orden en que se
//! recorre un mapa de hash depende de una semilla aleatoria de cada proceso,
//! de modo que el resultado no podría fijarse en un contrato. Con vectores
//! el orden es el de inserción, uno de los órdenes posibles.
use vstd::prelude::*;

use crate::servidor_utils::estado_usuario::EstadoUsuario;
use crate::servidor_utils::mensajes::vista_estados;

verus! {

/// Indica si algún par de la lista tiene la clave `k`.
pub open spec fn tiene_clave(s: Seq<(Seq<char>, EstadoUsuario)>, k: Seq<char>) -> bool {
    exists|i: int| 0 <= i < s.len() && (#[trigger] s[i]).0 == k
}

/// Posición del par con clave `k` (cuando la hay).
pub open spec fn indice_clave(s: Seq<(Seq<char>, EstadoUsuario)>, k: Seq<char>) -> int {
    choose|i: int| 0 <= i < s.len() && (#[trigger] s[i]).0 == k
}

/// Ninguna clave aparece dos veces.
pub open spec fn claves_unicas(s: Seq<(Seq<char>, EstadoUsuario)>) -> bool {
    forall|i: int, j: int| 0 <= i < s.len() && 0 <= j < s.len() && i != j ==> (#[trigger] s[i]).0 != (#[trigger] s[j]).0
}

/// Estado asociado a `k`.
pub open spec fn estado_de(s: Seq<(Seq<char>, EstadoUsuario)>, k: Seq<char>) -> EstadoUsuario {
    s[indice_clave(s, k)].1
}

/// La lista con `k` asociado a `e`: reemplaza el par si la clave está, o lo
/// agrega al final si no.
pub open spec fn con_estado(s: Seq<(Seq<char>, EstadoUsuario)>, k: Seq<char>, e: EstadoUsuario) -> Seq<
    (Seq<char>, EstadoUsuario),
> {
    if tiene_clave(s, k) {
        s.update(indice_clave(s, k), (k, e))
    } else {
        s.push((k, e))
    }
}

/// La lista sin el par de clave `k`.
pub open spec fn sin_clave(s: Seq<(Seq<char>, EstadoUsuario)>, k: Seq<char>) -> Seq<
    (Seq<char>, EstadoUsuario),
> {
    if tiene_clave(s, k) {
        s.remove(indice_clave(s, k))
    } else {
        s
    }
}

/// La lista con `k` asociado a `e` sólo si la clave ya estaba.
pub open spec fn modificar_estado(s: Seq<(Seq<char>, EstadoUsuario)>, k: Seq<char>, e: EstadoUsuario) -> Seq<
    (Seq<char>, EstadoUsuario),
> {
    if tiene_clave(s, k) {
        s.update(indice_clave(s, k), (k, e))
    } else {
        s
    }
}

/// El conjunto con `k` agregado al final si no estaba.
pub open spec fn con_usuario(s: Seq<Seq<char>>, k: Seq<char>) -> Seq<Seq<char>> {
    if s.contains(k) {
        s
    } else {
        s.push(k)
    }
}

/// El conjunto sin `k`.
pub open spec fn sin_usuario(s: Seq<Seq<char>>, k: Seq<char>) -> Seq<Seq<char>> {
    if s.contains(k) {
        s.remove(s.index_of(k))
    } else {
        s
    }
}

pub proof fn lema_indice_unico(s: Seq<(Seq<char>, EstadoUsuario)>, k: Seq<char>, i: int)
    requires
        claves_unicas(s),
        0 <= i < s.len(),
        s[i].0 == k,
    ensures
        tiene_clave(s, k),
        indice_clave(s, k) == i,
{
    assert(tiene_clave(s, k));
    let j = indice_clave(s, k);
    assert(0 <= j < s.len() && s[j].0 == k);
}

pub proof fn lema_con_estado(s: Seq<(Seq<char>, EstadoUsuario)>, k: Seq<char>, e: EstadoUsuario)
    requires
        claves_unicas(s),
    ensures
        claves_unicas(con_estado(s, k, e)),
        tiene_clave(con_estado(s, k, e), k),
        estado_de(con_estado(s, k, e), k) == e,
        forall|x: Seq<char>|
            x != k ==> (tiene_clave(con_estado(s, k, e), x) == tiene_clave(s, x)),
        forall|x: Seq<char>|
            x != k && tiene_clave(s, x) ==> estado_de(con_estado(s, k, e), x) == estado_de(s, x),
{
    let t = con_estado(s, k, e);
    if tiene_clave(s, k) {
        let i = indice_clave(s, k);
        assert(claves_unicas(t));
        lema_indice_unico(t, k, i);
        assert forall|x: Seq<char>| x != k implies tiene_clave(t, x) == tiene_clave(s, x) by {
            if tiene_clave(s, x) {
                let j = indice_clave(s, x);
                assert(t[j].0 == x);
            }
            if tiene_clave(t, x) {
                let j = indice_clave(t, x);
                assert(s[j].0 == x);
            }
        }
        assert forall|x: Seq<char>| x != k && tiene_clave(s, x) implies estado_de(t, x) == estado_de(
            s,
            x,
        ) by {
            let j = indice_clave(s, x);
            lema_indice_unico(t, x, j);
        }
    } else {
        assert(claves_unicas(t));
        lema_indice_unico(t, k, s.len() as int);
        assert forall|x: Seq<char>| x != k implies tiene_clave(t, x) == tiene_clave(s, x) by {
            if tiene_clave(s, x) {
                let j = indice_clave(s, x);
                assert(t[j].0 == x);
            }
            if tiene_clave(t, x) {
                let j = indice_clave(t, x);
                assert(s[j].0 == x);
            }
        }
        assert forall|x: Seq<char>| x != k && tiene_clave(s, x) implies estado_de(t, x) == estado_de(
            s,
            x,
        ) by {
            let j = indice_clave(s, x);
            lema_indice_unico(t, x, j);
        }
    }
}

pub proof fn lema_sin_clave(s: Seq<(Seq<char>, EstadoUsuario)>, k: Seq<char>)
    requires
        claves_unicas(s),
    ensures
        claves_unicas(sin_clave(s, k)),
        !tiene_clave(sin_clave(s, k), k),
        forall|x: Seq<char>| x != k ==> (tiene_clave(sin_clave(s, k), x) == tiene_clave(s, x)),
        forall|x: Seq<char>|
            x != k && tiene_clave(s, x) ==> estado_de(sin_clave(s, k), x) == estado_de(s, x),
{
    let t = sin_clave(s, k);
    if tiene_clave(s, k) {
        let i = indice_clave(s, k);
        assert forall|a: int, b: int|
            0 <= a < t.len() && 0 <= b < t.len() && a != b implies (#[trigger] t[a]).0 != (
            #[trigger] t[b]).0 by {
            let a2 = if a < i {
                a
            } else {
                a + 1
            };
            let b2 = if b < i {
                b
            } else {
                b + 1
            };
            assert(t[a] == s[a2]);
            assert(t[b] == s[b2]);
        }
        if tiene_clave(t, k) {
            let j = indice_clave(t, k);
            let j2 = if j < i {
                j
            } else {
                j + 1
            };
            assert(t[j] == s[j2]);
        }
        assert forall|x: Seq<char>| x != k implies tiene_clave(t, x) == tiene_clave(s, x) by {
            if tiene_clave(s, x) {
                let j = indice_clave(s, x);
                let j2 = if j < i {
                    j
                } else {
                    j - 1
                };
                assert(t[j2] == s[j]);
            }
            if tiene_clave(t, x) {
                let j = indice_clave(t, x);
                let j2 = if j < i {
                    j
                } else {
                    j + 1
                };
                assert(t[j] == s[j2]);
            }
        }
        assert forall|x: Seq<char>| x != k && tiene_clave(s, x) implies estado_de(t, x) == estado_de(
            s,
            x,
        ) by {
            let j = indice_clave(s, x);
            let j2 = if j < i {
                j
            } else {
                j - 1
            };
            assert(t[j2] == s[j]);
            lema_indice_unico(t, x, j2);
        }
    }
}

pub proof fn lema_modificar_estado(s: Seq<(Seq<char>, EstadoUsuario)>, k: Seq<char>, e: EstadoUsuario)
    requires
        claves_unicas(s),
    ensures
        claves_unicas(modificar_estado(s, k, e)),
        tiene_clave(s, k) ==> modificar_estado(s, k, e) == con_estado(s, k, e),
        !tiene_clave(s, k) ==> modificar_estado(s, k, e) == s,
{
    if tiene_clave(s, k) {
        lema_con_estado(s, k, e);
    }
}

/// Estados de los usuarios: pares usuario-estado sin usuarios repetidos, en
/// el orden en que se agregaron.
pub struct TablaEstados {
    entradas: Vec<(String, EstadoUsuario)>,
}

impl View for TablaEstados {
    type V = Seq<(Seq<char>, EstadoUsuario)>;

    closed spec fn view(&self) -> Seq<(Seq<char>, EstadoUsuario)> {
        vista_estados(self.entradas@)
    }
}

impl TablaEstados {
    /// Tabla bien formada: sin usuarios repetidos.
    pub open spec fn bien_formada(&self) -> bool {
        claves_unicas(self@)
    }

    /// Tabla vacía.
    pub fn new() -> (r: Self)
        ensures
            r@ == Seq::<(Seq<char>, EstadoUsuario)>::empty(),
            r.bien_formada(),
    {
        let r = TablaEstados { entradas: Vec::new() };
        assert(r@ =~= Seq::<(Seq<char>, EstadoUsuario)>::empty());
        r
    }

    /// Posición del usuario en la tabla, si está.
    pub fn buscar(&self, k: &String) -> (r: Option<usize>)
        requires
            self.bien_formada(),
        ensures
            match r {
                Some(i) => tiene_clave(self@, k@) && i == indice_clave(self@, k@),
                None => !tiene_clave(self@, k@),
            },
    {
        let mut i: usize = 0;
        while i < self.entradas.len()
            invariant
                i <= self.entradas@.len(),
                self@.len() == self.entradas@.len(),
                claves_unicas(self@),
                forall|j: int| 0 <= j < i ==> (#[trigger] self@[j]).0 != k@,
            decreases self.entradas@.len() - i,
        {
            assert(self@[i as int].0 == self.entradas@[i as int].0@);
            if self.entradas[i].0 == *k {
                proof {
                    lema_indice_unico(self@, k@, i as int);
                }
                return Some(i);
            }
            i = i + 1;
        }
        None
    }

    /// Indica si el usuario está en la tabla.
    pub fn contiene(&self, k: &String) -> (r: bool)
        requires
            self.bien_formada(),
        ensures
            r == tiene_clave(self@, k@),
    {
        self.buscar(k).is_some()
    }

    /// Asocia el usuario al estado, reemplazando el estado anterior si lo había.
    pub fn insertar(&mut self, k: String, e: EstadoUsuario)
        requires
            old(self).bien_formada(),
        ensures
            final(self)@ == con_estado(old(self)@, k@, e),
            final(self).bien_formada(),
    {
        proof {
            lema_con_estado(self@, k@, e);
        }
        match self.buscar(&k) {
            Some(i) => {
                let ghost kv = k@;
                self.entradas.set(i, (k, e));
                assert(self@ =~= old(self)@.update(i as int, (kv, e)));
            },
            None => {
                let ghost kv = k@;
                self.entradas.push((k, e));
                assert(self@ =~= old(self)@.push((kv, e)));
            },
        }
    }

    /// Quita el usuario de la tabla, si está.
    pub fn quitar(&mut self, k: &String)
        requires
            old(self).bien_formada(),
        ensures
            final(self)@ == sin_clave(old(self)@, k@),
            final(self).bien_formada(),
    {
        proof {
            lema_sin_clave(self@, k@);
        }
        match self.buscar(k) {
            Some(i) => {
                self.entradas.remove(i);
                assert(self@ =~= old(self)@.remove(i as int));
            },
            None => {},
        }
    }

    /// Cambia el estado del usuario sólo si ya estaba en la tabla.
    pub fn modificar_si_existe(&mut self, k: &String, e: EstadoUsuario)
        requires
            old(self).bien_formada(),
        ensures
            final(self)@ == modificar_estado(old(self)@, k@, e),
            final(self).bien_formada(),
    {
        proof {
            lema_modificar_estado(self@, k@, e);
            lema_con_estado(self@, k@, e);
        }
        match self.buscar(k) {
            Some(i) => {
                let clave = k.clone();
                self.entradas.set(i, (clave, e));
                assert(self@ =~= old(self)@.update(i as int, (k@, e)));
            },
            None => {},
        }
    }

    /// Estado del usuario, si está en la tabla.
    pub fn estado(&self, k: &String) -> (r: Option<EstadoUsuario>)
        requires
            self.bien_formada(),
        ensures
            match r {
                Some(e) => tiene_clave(self@, k@) && e == estado_de(self@, k@),
                None => !tiene_clave(self@, k@),
            },
    {
        match self.buscar(k) {
            Some(i) => {
                assert(self@[i as int].1 == self.entradas@[i as int].1);
                Some(self.entradas[i].1)
            },
            None => None,
        }
    }

    /// Cantidad de usuarios en la tabla.
    pub fn cantidad(&self) -> (r: usize)
        ensures
            r == self@.len(),
    {
        self.entradas.len()
    }

    /// Copia de los pares usuario-estado, en orden.
    pub fn copia(&self) -> (r: Vec<(String, EstadoUsuario)>)
        ensures
            vista_estados(r@) == self@,
    {
        let mut r: Vec<(String, EstadoUsuario)> = Vec::new();
        let mut i: usize = 0;
        while i < self.entradas.len()
            invariant
                i <= self.entradas@.len(),
                self@ == vista_estados(self.entradas@),
                vista_estados(r@) == self@.take(i as int),
            decreases self.entradas@.len() - i,
        {
            let par = (self.entradas[i].0.clone(), self.entradas[i].1);
            let ghost previo = r@;
            r.push(par);
            assert(vista_estados(r@) =~= vista_estados(previo).push(self@[i as int]));
            assert(self@.take(i + 1) =~= self@.take(i as int).push(self@[i as int]));
            i = i + 1;
        }
        assert(self@.take(i as int) =~= self@);
        r
    }
}

/// Conjunto de usuarios sin repetidos, en el orden en que se agregaron.
pub struct ConjuntoUsuarios {
    elementos: Vec<String>,
}

impl View for ConjuntoUsuarios {
    type V = Seq<Seq<char>>;

    closed spec fn view(&self) -> Seq<Seq<char>> {
        self.elementos@.map_values(|s: String| s@)
    }
}

impl ConjuntoUsuarios {
    /// Conjunto bien formado: sin repetidos.
    pub open spec fn bien_formado(&self) -> bool {
        self@.no_duplicates()
    }

    /// Conjunto vacío.
    pub fn new() -> (r: Self)
        ensures
            r@ == Seq::<Seq<char>>::empty(),
            r.bien_formado(),
    {
        let r = ConjuntoUsuarios { elementos: Vec::new() };
        assert(r@ =~= Seq::<Seq<char>>::empty());
        r
    }

    /// Usuarios del conjunto, en orden.
    pub fn elementos(&self) -> (r: &Vec<String>)
        ensures
            r@.map_values(|s: String| s@) == self@,
    {
        &self.elementos
    }

    /// Posición del usuario en el conjunto, si está.
    fn buscar(&self, k: &String) -> (r: Option<usize>)
        requires
            self.bien_formado(),
        ensures
            match r {
                Some(i) => self@.contains(k@) && i == self@.index_of(k@),
                None => !self@.contains(k@),
            },
    {
        let mut i: usize = 0;
        while i < self.elementos.len()
            invariant
                i <= self.elementos@.len(),
                self@.len() == self.elementos@.len(),
                self@.no_duplicates(),
                forall|j: int| 0 <= j < i ==> self@[j] != k@,
            decreases self.elementos@.len() - i,
        {
            assert(self@[i as int] == self.elementos@[i as int]@);
            if self.elementos[i] == *k {
                proof {
                    assert(self@[i as int] == k@);
                    assert(self@.contains(k@));
                    let j = self@.index_of(k@);
                    assert(self@[j] == k@);
                }
                return Some(i);
            }
            i = i + 1;
        }
        None
    }

    /// Indica si el usuario está en el conjunto.
    pub fn contiene(&self, k: &String) -> (r: bool)
        requires
            self.bien_formado(),
        ensures
            r == self@.contains(k@),
    {
        self.buscar(k).is_some()
    }

    /// Agrega el usuario al final si no estaba.
    pub fn insertar(&mut self, k: String)
        requires
            old(self).bien_formado(),
        ensures
            final(self)@ == con_usuario(old(self)@, k@),
            final(self).bien_formado(),
    {
        if self.buscar(&k).is_none() {
            let ghost kv = k@;
            self.elementos.push(k);
            assert(self@ =~= old(self)@.push(kv));
        }
    }

    /// Quita el usuario del conjunto, si está.
    pub fn quitar(&mut self, k: &String)
        requires
            old(self).bien_formado(),
        ensures
            final(self)@ == sin_usuario(old(self)@, k@),
            final(self).bien_formado(),
    {
        match self.buscar(k) {
            Some(i) => {
                self.elementos.remove(i);
                assert(self@ =~= old(self)@.remove(i as int));
                proof {
                    assert forall|a: int, b: int|
                        0 <= a < self@.len() && 0 <= b < self@.len() && a != b implies self@[a]
                        != self@[b] by {
                        let a2 = if a < i {
                            a
                        } else {
                            a + 1
                        };
                        let b2 = if b < i {
                            b
                        } else {
                            b + 1
                        };
                        assert(self@[a] == old(self)@[a2]);
                        assert(self@[b] == old(self)@[b2]);
                    }
                }
            },
            None => {},
        }
    }
}

} // verus!
