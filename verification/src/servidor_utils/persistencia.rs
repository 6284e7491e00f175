//! Formato del archivo de usuarios: una línea `nombre;contraseña` por
//! usuario. Leer y escribir el archivo queda a cargo de quien usa la
//! biblioteca; aquí se arma y se interpreta su contenido.
use vstd::prelude::*;

use crate::texto::{agregar_texto, caracteres, recortar, recortar_caracteres, texto_desde};

verus! {

/// Partes de `s` separadas por `sep` (como `str::split` con un caracter):
/// con `n` separadores hay `n + 1` partes, posiblemente vacías.
pub open spec fn dividir(s: Seq<char>, sep: char) -> Seq<Seq<char>>
    decreases s.len(),
{
    if s.len() == 0 {
        seq![Seq::empty()]
    } else {
        let previas = dividir(s.drop_last(), sep);
        if s.last() == sep {
            previas.push(Seq::empty())
        } else {
            previas.update(previas.len() - 1, previas.last().push(s.last()))
        }
    }
}

pub proof fn lema_dividir_no_vacio(s: Seq<char>, sep: char)
    ensures
        dividir(s, sep).len() >= 1,
    decreases s.len(),
{
    if s.len() > 0 {
        lema_dividir_no_vacio(s.drop_last(), sep);
    }
}

/// Usuarios de las líneas dadas: cada línea, sin espacios al principio ni al
/// final, debe tener exactamente un `;`; las demás se ignoran.
pub open spec fn pares_de_lineas(lineas: Seq<Seq<char>>) -> Seq<(Seq<char>, Seq<char>)>
    decreases lineas.len(),
{
    if lineas.len() == 0 {
        Seq::empty()
    } else {
        let previos = pares_de_lineas(lineas.drop_last());
        let partes = dividir(recortar(lineas.last()), ';');
        if partes.len() == 2 {
            previos.push((partes[0], partes[1]))
        } else {
            previos
        }
    }
}

/// Usuarios guardados en el contenido de un archivo de usuarios.
pub open spec fn usuarios_de_texto(contenido: Seq<char>) -> Seq<(Seq<char>, Seq<char>)> {
    pares_de_lineas(dividir(contenido, '\n'))
}

/// Contenido del archivo para una lista de usuarios: `nombre;contraseña` y
/// un salto de línea por usuario.
pub open spec fn texto_de_usuarios(l: Seq<(Seq<char>, Seq<char>)>) -> Seq<char>
    decreases l.len(),
{
    if l.len() == 0 {
        Seq::empty()
    } else {
        texto_de_usuarios(l.drop_last()) + l.last().0 + seq![';'] + l.last().1 + seq!['\n']
    }
}

/// Contenido de una lista de pares de textos.
pub open spec fn vista_pares(l: Seq<(String, String)>) -> Seq<(Seq<char>, Seq<char>)> {
    l.map_values(|p: (String, String)| (p.0@, p.1@))
}

/// Divide `s` en las partes separadas por `sep`.
pub fn dividir_caracteres(s: &[char], sep: char) -> (r: Vec<Vec<char>>)
    ensures
        r@.map_values(|v: Vec<char>| v@) == dividir(s@, sep),
{
    let mut r: Vec<Vec<char>> = Vec::new();
    let mut actual: Vec<char> = Vec::new();
    let mut i: usize = 0;
    assert(s@.take(0) =~= Seq::<char>::empty());
    assert(r@.map_values(|v: Vec<char>| v@).push(actual@) =~= dividir(s@.take(0), sep));
    while i < s.len()
        invariant
            i <= s@.len(),
            r@.map_values(|v: Vec<char>| v@).push(actual@) == dividir(s@.take(i as int), sep),
        decreases s@.len() - i,
    {
        let c = s[i];
        let ghost previas = dividir(s@.take(i as int), sep);
        assert(s@.take(i + 1).drop_last() =~= s@.take(i as int));
        assert(s@.take(i + 1).last() == c);
        if c == sep {
            let ghost r0 = r@.map_values(|v: Vec<char>| v@);
            let terminado = actual;
            r.push(terminado);
            actual = Vec::new();
            assert(r@.map_values(|v: Vec<char>| v@) =~= r0.push(terminado@));
            assert(r@.map_values(|v: Vec<char>| v@).push(actual@) =~= previas.push(Seq::empty()));
        } else {
            let ghost a0 = actual@;
            actual.push(c);
            assert(r@.map_values(|v: Vec<char>| v@).push(actual@) =~= previas.update(
                previas.len() - 1,
                previas.last().push(c),
            ));
        }
        i = i + 1;
    }
    assert(s@.take(i as int) =~= s@);
    let ghost r0 = r@.map_values(|v: Vec<char>| v@);
    r.push(actual);
    assert(r@.map_values(|v: Vec<char>| v@) =~= r0.push(actual@));
    r
}

/// Lee los usuarios del contenido de un archivo de usuarios: una línea
/// `nombre;contraseña` por usuario; las líneas mal formadas se ignoran.
pub fn parsear_usuarios(contenido: &str) -> (r: Vec<(String, String)>)
    ensures
        vista_pares(r@) == usuarios_de_texto(contenido@),
{
    let lineas = dividir_caracteres(caracteres(contenido).as_slice(), '\n');
    let ghost ls = lineas@.map_values(|v: Vec<char>| v@);
    let mut r: Vec<(String, String)> = Vec::new();
    let mut i: usize = 0;
    assert(ls.take(0) =~= Seq::<Seq<char>>::empty());
    assert(vista_pares(r@) =~= pares_de_lineas(ls.take(0)));
    while i < lineas.len()
        invariant
            i <= lineas@.len(),
            ls == lineas@.map_values(|v: Vec<char>| v@),
            vista_pares(r@) == pares_de_lineas(ls.take(i as int)),
        decreases lineas@.len() - i,
    {
        assert(ls.take(i + 1).drop_last() =~= ls.take(i as int));
        assert(ls.take(i + 1).last() == lineas@[i as int]@);
        let linea = recortar_caracteres(lineas[i].as_slice());
        let partes = dividir_caracteres(linea.as_slice(), ';');
        assert(partes@.map_values(|v: Vec<char>| v@).len() == partes@.len());
        if partes.len() == 2 {
            let ghost r0 = vista_pares(r@);
            let par = (texto_desde(partes[0].as_slice()), texto_desde(partes[1].as_slice()));
            assert(partes@.map_values(|v: Vec<char>| v@)[0] == partes@[0]@);
            assert(partes@.map_values(|v: Vec<char>| v@)[1] == partes@[1]@);
            r.push(par);
            assert(vista_pares(r@) =~= r0.push((par.0@, par.1@)));
        }
        i = i + 1;
    }
    assert(ls.take(i as int) =~= ls);
    r
}

/// Arma el contenido del archivo de usuarios: `nombre;contraseña` y un salto
/// de línea por usuario.
pub fn serializar_usuarios(usuarios: &[(String, String)]) -> (r: String)
    ensures
        r@ == texto_de_usuarios(vista_pares(usuarios@)),
{
    let mut v: Vec<char> = Vec::new();
    let mut i: usize = 0;
    let ghost l = vista_pares(usuarios@);
    assert(l.take(0) =~= Seq::<(Seq<char>, Seq<char>)>::empty());
    while i < usuarios.len()
        invariant
            i <= usuarios@.len(),
            l == vista_pares(usuarios@),
            v@ == texto_de_usuarios(l.take(i as int)),
        decreases usuarios@.len() - i,
    {
        assert(l.take(i + 1).drop_last() =~= l.take(i as int));
        assert(l.take(i + 1).last() == l[i as int]);
        let ghost v0 = v@;
        agregar_texto(&mut v, usuarios[i].0.as_str());
        v.push(';');
        agregar_texto(&mut v, usuarios[i].1.as_str());
        v.push('\n');
        assert(v@ =~= v0 + l[i as int].0 + seq![';'] + l[i as int].1 + seq!['\n']);
        i = i + 1;
    }
    assert(l.take(i as int) =~= l);
    texto_desde(v.as_slice())
}


/// Un usuario se puede guardar y volver a leer tal cual: ni el nombre ni la
/// contraseña tienen `;` ni saltos de línea, y la línea `nombre;contraseña`
/// no empieza ni termina con espacios en blanco.
pub open spec fn usuario_guardable(nombre: Seq<char>, contrasena: Seq<char>) -> bool {
    &&& !nombre.contains(';')
    &&& !nombre.contains('\n')
    &&& !contrasena.contains(';')
    &&& !contrasena.contains('\n')
    &&& recortar(nombre + seq![';'] + contrasena) == nombre + seq![';'] + contrasena
}

/// Líneas `nombre;contraseña` de una lista de usuarios.
pub open spec fn lineas_de_usuarios(l: Seq<(Seq<char>, Seq<char>)>) -> Seq<Seq<char>> {
    l.map_values(|p: (Seq<char>, Seq<char>)| p.0 + seq![';'] + p.1)
}

proof fn lema_dividir_sin_separador(a: Seq<char>, x: Seq<char>, sep: char, p: Seq<Seq<char>>)
    requires
        dividir(a, sep) == p.push(Seq::empty()),
        !x.contains(sep),
    ensures
        dividir(a + x, sep) == p.push(x),
    decreases x.len(),
{
    if x.len() == 0 {
        assert(a + x =~= a);
        assert(x =~= Seq::<char>::empty());
    } else {
        let x1 = x.drop_last();
        assert(!x1.contains(sep)) by {
            if x1.contains(sep) {
                let i = choose|i: int| 0 <= i < x1.len() && x1[i] == sep;
                assert(x[i] == sep);
            }
        }
        lema_dividir_sin_separador(a, x1, sep, p);
        assert((a + x).drop_last() =~= a + x1);
        assert((a + x).last() == x.last());
        assert(x.last() != sep) by {
            assert(x[x.len() - 1] == x.last());
        }
        assert(x1.push(x.last()) =~= x);
        assert(p.push(x1).update(p.len() as int, x1.push(x.last())) =~= p.push(x));
    }
}

proof fn lema_dividir_texto(l: Seq<(Seq<char>, Seq<char>)>)
    requires
        forall|i: int| 0 <= i < l.len() ==> usuario_guardable(#[trigger] l[i].0, l[i].1),
    ensures
        dividir(texto_de_usuarios(l), '\n') == lineas_de_usuarios(l).push(Seq::empty()),
    decreases l.len(),
{
    if l.len() == 0 {
        assert(lineas_de_usuarios(l) =~= Seq::<Seq<char>>::empty());
    } else {
        let l1 = l.drop_last();
        assert forall|i: int| 0 <= i < l1.len() implies usuario_guardable(
            #[trigger] l1[i].0,
            l1[i].1,
        ) by {
            assert(l1[i] == l[i]);
        }
        lema_dividir_texto(l1);
        let (n, c) = l.last();
        assert(usuario_guardable(l[l.len() - 1].0, l[l.len() - 1].1));
        let x = n + seq![';'] + c;
        assert(!x.contains('\n')) by {
            if x.contains('\n') {
                let i = choose|i: int| 0 <= i < x.len() && x[i] == '\n';
                if i < n.len() {
                    assert(n[i] == '\n');
                } else if i > n.len() {
                    assert(c[i - n.len() - 1] == '\n');
                }
            }
        }
        let t1 = texto_de_usuarios(l1);
        lema_dividir_sin_separador(t1, x, '\n', lineas_de_usuarios(l1));
        assert(texto_de_usuarios(l) =~= (t1 + x).push('\n'));
        assert((t1 + x).push('\n').drop_last() =~= t1 + x);
        assert(lineas_de_usuarios(l) =~= lineas_de_usuarios(l1).push(x));
    }
}

proof fn lema_dividir_par(n: Seq<char>, c: Seq<char>)
    requires
        !n.contains(';'),
        !c.contains(';'),
    ensures
        dividir(n + seq![';'] + c, ';') == seq![n, c],
{
    lema_dividir_sin_separador(Seq::empty(), n, ';', Seq::empty());
    assert(Seq::<char>::empty() + n =~= n);
    assert(Seq::<Seq<char>>::empty().push(n) =~= seq![n]);
    assert(dividir((n + seq![';']).drop_last(), ';') == seq![n]) by {
        assert((n + seq![';']).drop_last() =~= n);
    }
    assert(dividir(n + seq![';'], ';') =~= seq![n].push(Seq::empty()));
    lema_dividir_sin_separador(n + seq![';'], c, ';', seq![n]);
    assert(seq![n].push(c) =~= seq![n, c]);
}

proof fn lema_pares_de_lineas(l: Seq<(Seq<char>, Seq<char>)>)
    requires
        forall|i: int| 0 <= i < l.len() ==> usuario_guardable(#[trigger] l[i].0, l[i].1),
    ensures
        pares_de_lineas(lineas_de_usuarios(l)) == l,
    decreases l.len(),
{
    if l.len() > 0 {
        let l1 = l.drop_last();
        assert forall|i: int| 0 <= i < l1.len() implies usuario_guardable(
            #[trigger] l1[i].0,
            l1[i].1,
        ) by {
            assert(l1[i] == l[i]);
        }
        lema_pares_de_lineas(l1);
        assert(usuario_guardable(l[l.len() - 1].0, l[l.len() - 1].1));
        let (n, c) = l.last();
        lema_dividir_par(n, c);
        assert(lineas_de_usuarios(l).drop_last() =~= lineas_de_usuarios(l1));
        assert(l1.push(l.last()) =~= l);
    }
}

/// Guardar una lista de usuarios y volver a leer el contenido devuelve la
/// misma lista, siempre que cada usuario se pueda guardar tal cual.
pub proof fn ley_guardar_y_cargar(l: Seq<(Seq<char>, Seq<char>)>)
    requires
        forall|i: int| 0 <= i < l.len() ==> usuario_guardable(#[trigger] l[i].0, l[i].1),
    ensures
        usuarios_de_texto(texto_de_usuarios(l)) == l,
{
    lema_dividir_texto(l);
    lema_pares_de_lineas(l);
    let ls = lineas_de_usuarios(l);
    assert(ls.push(Seq::empty()).drop_last() =~= ls);
    assert(recortar(Seq::<char>::empty()) =~= Seq::<char>::empty());
    assert(dividir(Seq::<char>::empty(), ';') == seq![Seq::<char>::empty()]);
}

} // verus!
