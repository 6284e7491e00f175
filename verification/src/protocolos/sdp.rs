//! Descripción de sesión SDP reducida a lo que usa la negociación DTLS:
//! la lista de medias y los atributos (`a=...`) de cada una.
use vstd::prelude::*;

verus! {

/// Descripción de una media SDP: sus líneas de atributo en orden.
pub struct DescripcionDeMedia {
    atributos: Vec<String>,
}

/// Descripción de sesión SDP: sus medias en orden.
pub struct DescripcionDeSesion {
    medias: Vec<DescripcionDeMedia>,
}

/// Atributos de una media, como textos.
pub open spec fn atributos_de_media(m: DescripcionDeMedia) -> Seq<Seq<char>> {
    m.atributos_spec()
}

/// Atributos de cada media de la sesión, en orden.
pub open spec fn atributos_de(d: DescripcionDeSesion) -> Seq<Seq<Seq<char>>> {
    d.medias_spec().map_values(|m: DescripcionDeMedia| atributos_de_media(m))
}

impl DescripcionDeMedia {
    pub closed spec fn atributos_spec(&self) -> Seq<Seq<char>> {
        self.atributos@.map_values(|s: String| s@)
    }

    /// Media sin atributos.
    pub fn new() -> (r: Self)
        ensures
            r.atributos_spec() == Seq::<Seq<char>>::empty(),
    {
        let r = DescripcionDeMedia { atributos: Vec::new() };
        assert(r.atributos_spec() =~= Seq::<Seq<char>>::empty());
        r
    }

    /// Agrega un atributo al final de la lista.
    pub fn agregar_atributo(&mut self, atributo: String)
        ensures
            final(self).atributos_spec() == old(self).atributos_spec().push(atributo@),
    {
        self.atributos.push(atributo);
        assert(self.atributos_spec() =~= old(self).atributos_spec().push(atributo@));
    }

    /// Atributos de la media.
    pub fn atributos(&self) -> (r: &Vec<String>)
        ensures
            r@.map_values(|s: String| s@) == self.atributos_spec(),
    {
        &self.atributos
    }
}

impl DescripcionDeSesion {
    pub closed spec fn medias_spec(&self) -> Seq<DescripcionDeMedia> {
        self.medias@
    }

    /// Sesión con las medias dadas.
    pub fn new(medias: Vec<DescripcionDeMedia>) -> (r: Self)
        ensures
            r.medias_spec() == medias@,
    {
        DescripcionDeSesion { medias }
    }

    /// Medias de la sesión.
    pub fn medias(&self) -> (r: &Vec<DescripcionDeMedia>)
        ensures
            r@ == self.medias_spec(),
    {
        &self.medias
    }

    /// Agrega el mismo atributo al final de cada media.
    pub fn agregar_atributo_a_cada_media(&mut self, atributo: &String)
        ensures
            atributos_de(*final(self)).len() == atributos_de(*old(self)).len(),
            forall|k: int|
                0 <= k < atributos_de(*old(self)).len() ==> #[trigger] atributos_de(*final(self))[k]
                    == atributos_de(*old(self))[k].push(atributo@),
    {
        let mut i: usize = 0;
        while i < self.medias.len()
            invariant
                i <= self.medias@.len(),
                self.medias@.len() == old(self).medias@.len(),
                forall|k: int|
                    0 <= k < i ==> #[trigger] self.medias@[k].atributos_spec() == old(
                        self,
                    ).medias@[k].atributos_spec().push(atributo@),
                forall|k: int|
                    i <= k < self.medias@.len() ==> #[trigger] self.medias@[k] == old(
                        self,
                    ).medias@[k],
            decreases self.medias@.len() - i,
        {
            self.medias[i].agregar_atributo(atributo.clone());
            i = i + 1;
        }
    }
}

} // verus!
