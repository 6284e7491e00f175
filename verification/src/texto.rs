//! Operaciones sobre texto usadas por los parsers de la biblioteca: espacios
//! en blanco Unicode, recorte, separación en palabras, prefijos y mayúsculas.
use vstd::prelude::*;

verus! {

/// Caracteres con la propiedad Unicode `White_Space` (los que reconoce
/// `char::is_whitespace`).
pub open spec fn espacio_en_blanco(c: char) -> bool {
    ||| ('\u{9}' <= c && c <= '\u{d}')
    ||| c == ' '
    ||| c == '\u{85}'
    ||| c == '\u{a0}'
    ||| c == '\u{1680}'
    ||| ('\u{2000}' <= c && c <= '\u{200a}')
    ||| c == '\u{2028}'
    ||| c == '\u{2029}'
    ||| c == '\u{202f}'
    ||| c == '\u{205f}'
    ||| c == '\u{3000}'
}

/// Indica si un caracter es un espacio en blanco Unicode.
pub fn es_espacio_en_blanco(c: char) -> (r: bool)
    ensures
        r == espacio_en_blanco(c),
{
    ('\u{9}' <= c && c <= '\u{d}') || c == ' ' || c == '\u{85}' || c == '\u{a0}' || c
        == '\u{1680}' || ('\u{2000}' <= c && c <= '\u{200a}') || c == '\u{2028}' || c
        == '\u{2029}' || c == '\u{202f}' || c == '\u{205f}' || c == '\u{3000}'
}

/// Texto sin los espacios en blanco iniciales.
pub open spec fn recortar_inicio(s: Seq<char>) -> Seq<char>
    decreases s.len(),
{
    if s.len() > 0 && espacio_en_blanco(s[0]) {
        recortar_inicio(s.drop_first())
    } else {
        s
    }
}

/// Texto sin los espacios en blanco finales.
pub open spec fn recortar_fin(s: Seq<char>) -> Seq<char>
    decreases s.len(),
{
    if s.len() > 0 && espacio_en_blanco(s.last()) {
        recortar_fin(s.drop_last())
    } else {
        s
    }
}

/// Texto sin espacios en blanco al principio ni al final (como `str::trim`).
pub open spec fn recortar(s: Seq<char>) -> Seq<char> {
    recortar_fin(recortar_inicio(s))
}

/// Caracteres iniciales hasta el primer espacio en blanco.
pub open spec fn primera_palabra(s: Seq<char>) -> Seq<char>
    decreases s.len(),
{
    if s.len() == 0 || espacio_en_blanco(s[0]) {
        Seq::empty()
    } else {
        seq![s[0]] + primera_palabra(s.drop_first())
    }
}

pub proof fn lema_recortar_inicio_sufijo(s: Seq<char>)
    ensures
        recortar_inicio(s).len() <= s.len(),
        recortar_inicio(s) == s.skip(s.len() - recortar_inicio(s).len()),
        recortar_inicio(s).len() > 0 ==> !espacio_en_blanco(recortar_inicio(s)[0]),
    decreases s.len(),
{
    if s.len() > 0 && espacio_en_blanco(s[0]) {
        lema_recortar_inicio_sufijo(s.drop_first());
        assert(s.drop_first().skip(s.drop_first().len() - recortar_inicio(s).len()) =~= s.skip(
            s.len() - recortar_inicio(s).len(),
        ));
    } else {
        assert(s.skip(0) =~= s);
    }
}

pub proof fn lema_primera_palabra_prefijo(s: Seq<char>)
    ensures
        primera_palabra(s).len() <= s.len(),
        primera_palabra(s) == s.take(primera_palabra(s).len() as int),
        s.len() > 0 && !espacio_en_blanco(s[0]) ==> primera_palabra(s).len() >= 1,
        forall|k: int| 0 <= k < primera_palabra(s).len() ==> !espacio_en_blanco(#[trigger] primera_palabra(s)[k]),
        primera_palabra(s).len() < s.len() ==> espacio_en_blanco(s[primera_palabra(s).len() as int]),
    decreases s.len(),
{
    if s.len() == 0 || espacio_en_blanco(s[0]) {
    } else {
        lema_primera_palabra_prefijo(s.drop_first());
        assert(primera_palabra(s) =~= s.take(primera_palabra(s).len() as int));
    }
}

/// Palabras del texto separadas por espacios en blanco (como `str::split_whitespace`).
pub open spec fn palabras(s: Seq<char>) -> Seq<Seq<char>>
    decreases s.len(),
{
    let t = recortar_inicio(s);
    if t.len() == 0 {
        Seq::empty()
    } else {
        let w = primera_palabra(t);
        if 0 < w.len() && w.len() <= t.len() && t.len() <= s.len() {
            seq![w] + palabras(t.skip(w.len() as int))
        } else {
            Seq::empty()
        }
    }
}

/// Vistas de una lista de palabras.
pub open spec fn vistas(v: Seq<Vec<char>>) -> Seq<Seq<char>> {
    v.map_values(|w: Vec<char>| w@)
}

/// Caracteres de un texto.
pub fn caracteres(s: &str) -> (r: Vec<char>)
    ensures
        r@ == s@,
{
    let mut r: Vec<char> = Vec::new();
    for c in it: s.chars()
        invariant
            r@ == it.seq().take(it.index() as int),
            it.seq() == s@,
    {
        assert(it.seq().take(it.index() + 1) =~= it.seq().take(it.index() as int).push(c));
        r.push(c);
    }
    assert(r@ =~= s@);
    r
}

/// Agrega un caracter al final de un `String` (llama a `String::push`).
/// Se confía en que el resultado es el texto anterior seguido del caracter.
#[verifier::external_body]
pub(crate) fn agregar_caracter(s: &mut String, c: char)
    ensures
        final(s)@ == old(s)@.push(c),
{
    s.push(c)
}

/// Texto en mayúsculas según Unicode, tal como lo calcula `str::to_uppercase`.
pub uninterp spec fn mayusculas(s: Seq<char>) -> Seq<char>;

/// Texto en minúsculas según Unicode, tal como lo calcula `str::to_lowercase`.
pub uninterp spec fn minusculas(s: Seq<char>) -> Seq<char>;

/// Caracter ASCII que no es una letra minúscula: según Unicode, su
/// mayúscula es él mismo.
pub open spec fn ascii_sin_minuscula(c: char) -> bool {
    (c as u32) < 128 && !('a' <= c && c <= 'z')
}

/// Texto hecho sólo de caracteres ASCII.
pub open spec fn es_ascii(s: Seq<char>) -> bool {
    forall|i: int| 0 <= i < s.len() ==> (#[trigger] s[i] as u32) < 128
}

/// Mayúscula de un caracter ASCII: las letras `a`–`z` pasan a `A`–`Z` y
/// los demás quedan igual.
pub open spec fn mayuscula_ascii(c: char) -> char {
    if 'a' <= c && c <= 'z' {
        ((c as u32) - 32) as char
    } else {
        c
    }
}

/// Minúscula de un caracter ASCII: las letras `A`–`Z` pasan a `a`–`z` y
/// los demás quedan igual.
pub open spec fn minuscula_ascii(c: char) -> char {
    if 'A' <= c && c <= 'Z' {
        ((c as u32) + 32) as char
    } else {
        c
    }
}

/// Texto en mayúsculas: un texto ASCII cambia letra por letra según
/// [`mayuscula_ascii`]; cualquier otro, según Unicode ([`mayusculas`]).
pub open spec fn mayusculas_texto(s: Seq<char>) -> Seq<char> {
    if es_ascii(s) {
        s.map_values(|c: char| mayuscula_ascii(c))
    } else {
        mayusculas(s)
    }
}

/// Texto en minúsculas: un texto ASCII cambia letra por letra según
/// [`minuscula_ascii`]; cualquier otro, según Unicode ([`minusculas`]).
pub open spec fn minusculas_texto(s: Seq<char>) -> Seq<char> {
    if es_ascii(s) {
        s.map_values(|c: char| minuscula_ascii(c))
    } else {
        minusculas(s)
    }
}

/// Un texto ASCII sin minúsculas queda igual al pasarlo a mayúsculas.
pub proof fn lema_mayusculas_sin_minusculas(s: Seq<char>)
    requires
        forall|i: int| 0 <= i < s.len() ==> ascii_sin_minuscula(#[trigger] s[i]),
    ensures
        mayusculas_texto(s) == s,
{
    assert(es_ascii(s)) by {
        assert forall|i: int| 0 <= i < s.len() implies (#[trigger] s[i] as u32) < 128 by {
            assert(ascii_sin_minuscula(s[i]));
        }
    }
    assert(s.map_values(|c: char| mayuscula_ascii(c)) =~= s) by {
        assert forall|i: int| 0 <= i < s.len() implies mayuscula_ascii(s[i]) == s[i] by {
            assert(ascii_sin_minuscula(s[i]));
        }
    }
}

/// Llama a `str::to_uppercase`. Se confía en que el resultado es una función
/// del texto recibido ([`mayusculas`]) y en que, para un texto ASCII, cada
/// letra `a`–`z` pasa a `A`–`Z` y los demás caracteres quedan igual (la
/// mayúscula Unicode de un caracter ASCII, como la documenta
/// `char::to_ascii_uppercase`); no se afirma nada más sobre otros textos.
#[verifier::external_body]
pub(crate) fn a_mayusculas(s: &str) -> (r: String)
    ensures
        r@ == mayusculas(s@),
        r@ == mayusculas_texto(s@),
{
    s.to_uppercase()
}

/// Llama a `str::to_lowercase`. Se confía en que el resultado es una función
/// del texto recibido ([`minusculas`]) y en que, para un texto ASCII, cada
/// letra `A`–`Z` pasa a `a`–`z` y los demás caracteres quedan igual (la
/// minúscula Unicode de un caracter ASCII, como la documenta
/// `char::to_ascii_lowercase`); no se afirma nada más sobre otros textos.
#[verifier::external_body]
pub(crate) fn a_minusculas(s: &str) -> (r: String)
    ensures
        r@ == minusculas(s@),
        r@ == minusculas_texto(s@),
{
    s.to_lowercase()
}

/// Construye un `String` con los caracteres dados.
pub fn texto_desde(v: &[char]) -> (r: String)
    ensures
        r@ == v@,
{
    let mut r = String::new();
    let mut i: usize = 0;
    while i < v.len()
        invariant
            i <= v@.len(),
            r@ == v@.take(i as int),
        decreases v@.len() - i,
    {
        assert(v@.take(i + 1) =~= v@.take(i as int).push(v@[i as int]));
        agregar_caracter(&mut r, v[i]);
        i = i + 1;
    }
    assert(v@.take(i as int) =~= v@);
    r
}

/// Indica si dos secuencias de caracteres son iguales.
pub fn mismos_caracteres(a: &[char], b: &[char]) -> (r: bool)
    ensures
        r == (a@ == b@),
{
    if a.len() != b.len() {
        return false;
    }
    let mut i: usize = 0;
    while i < a.len()
        invariant
            a@.len() == b@.len(),
            i <= a@.len(),
            forall|j: int| 0 <= j < i ==> a@[j] == b@[j],
        decreases a@.len() - i,
    {
        if a[i] != b[i] {
            return false;
        }
        i = i + 1;
    }
    assert(a@ =~= b@);
    true
}

/// Indica si `s` empieza con `prefijo`.
pub fn empieza_con(s: &[char], prefijo: &[char]) -> (r: bool)
    ensures
        r == (prefijo@.len() <= s@.len() && s@.take(prefijo@.len() as int) == prefijo@),
{
    if prefijo.len() > s.len() {
        return false;
    }
    let mut i: usize = 0;
    while i < prefijo.len()
        invariant
            prefijo@.len() <= s@.len(),
            i <= prefijo@.len(),
            forall|j: int| 0 <= j < i ==> s@[j] == prefijo@[j],
        decreases prefijo@.len() - i,
    {
        if s[i] != prefijo[i] {
            assert(s@.take(prefijo@.len() as int)[i as int] != prefijo@[i as int]);
            return false;
        }
        i = i + 1;
    }
    assert(s@.take(prefijo@.len() as int) =~= prefijo@);
    true
}

/// Índice del primer caracter que no es espacio en blanco a partir de `desde`.
fn saltar_espacios(s: &[char], desde: usize) -> (r: usize)
    requires
        desde <= s@.len(),
    ensures
        desde <= r <= s@.len(),
        recortar_inicio(s@.skip(desde as int)) == s@.skip(r as int),
{
    let mut i = desde;
    while i < s.len() && es_espacio_en_blanco(s[i])
        invariant
            desde <= i <= s@.len(),
            recortar_inicio(s@.skip(desde as int)) == recortar_inicio(s@.skip(i as int)),
        decreases s@.len() - i,
    {
        assert(s@.skip(i as int).drop_first() =~= s@.skip(i + 1));
        i = i + 1;
    }
    if i < s.len() {
        assert(s@.skip(i as int)[0] == s@[i as int]);
    }
    i
}

/// Índice del primer espacio en blanco a partir de `desde` (o el final).
fn fin_de_palabra(s: &[char], desde: usize) -> (r: usize)
    requires
        desde <= s@.len(),
    ensures
        desde <= r <= s@.len(),
        primera_palabra(s@.skip(desde as int)) == s@.subrange(desde as int, r as int),
{
    let mut i = desde;
    while i < s.len() && !es_espacio_en_blanco(s[i])
        invariant
            desde <= i <= s@.len(),
            primera_palabra(s@.skip(desde as int)) == s@.subrange(desde as int, i as int)
                + primera_palabra(s@.skip(i as int)),
        decreases s@.len() - i,
    {
        assert(s@.skip(i as int).drop_first() =~= s@.skip(i + 1));
        assert(s@.subrange(desde as int, i + 1) =~= s@.subrange(desde as int, i as int) + seq![
            s@[i as int],
        ]);
        i = i + 1;
    }
    assert(s@.subrange(desde as int, i as int) + Seq::<char>::empty() =~= s@.subrange(
        desde as int,
        i as int,
    ));
    i
}

/// Separa el texto en palabras delimitadas por espacios en blanco.
pub fn separar_palabras(s: &[char]) -> (r: Vec<Vec<char>>)
    ensures
        vistas(r@) == palabras(s@),
{
    let mut r: Vec<Vec<char>> = Vec::new();
    let mut i: usize = 0;
    assert(s@.skip(0) =~= s@);
    while i < s.len()
        invariant
            i <= s@.len(),
            palabras(s@) == vistas(r@) + palabras(s@.skip(i as int)),
        decreases s@.len() - i,
    {
        let inicio = saltar_espacios(s, i);
        if inicio == s.len() {
            assert(s@.skip(inicio as int).len() == 0);
            assert(palabras(s@.skip(i as int)) =~= Seq::<Seq<char>>::empty());
            assert(vistas(r@) + Seq::<Seq<char>>::empty() =~= vistas(r@));
            i = inicio;
        } else {
            let fin = fin_de_palabra(s, inicio);
            let ghost t = s@.skip(inicio as int);
            proof {
                lema_primera_palabra_prefijo(t);
                assert(t[0] == s@[inicio as int]);
                assert(!espacio_en_blanco(t[0])) by {
                    lema_recortar_inicio_sufijo(s@.skip(i as int));
                }
                assert(t.skip(primera_palabra(t).len() as int) =~= s@.skip(fin as int));
                lema_recortar_inicio_sufijo(s@.skip(i as int));
            }
            let palabra = slice_a_vec(s, inicio, fin);
            let ghost anterior = r@;
            r.push(palabra);
            assert(vistas(r@) =~= vistas(anterior).push(s@.subrange(inicio as int, fin as int)));
            assert(palabras(s@.skip(i as int)) =~= seq![s@.subrange(inicio as int, fin as int)]
                + palabras(s@.skip(fin as int)));
            assert(vistas(r@) + palabras(s@.skip(fin as int)) =~= vistas(anterior) + (seq![
                s@.subrange(inicio as int, fin as int),
            ] + palabras(s@.skip(fin as int))));
            i = fin;
        }
    }
    assert(s@.skip(i as int).len() == 0);
    assert(palabras(s@.skip(i as int)) =~= Seq::<Seq<char>>::empty());
    assert(vistas(r@) + Seq::<Seq<char>>::empty() =~= vistas(r@));
    r
}

/// Copia de los caracteres `s[desde..hasta]`.
pub fn slice_a_vec(s: &[char], desde: usize, hasta: usize) -> (r: Vec<char>)
    requires
        desde <= hasta <= s@.len(),
    ensures
        r@ == s@.subrange(desde as int, hasta as int),
{
    let mut r: Vec<char> = Vec::new();
    let mut i = desde;
    while i < hasta
        invariant
            desde <= i <= hasta,
            hasta <= s@.len(),
            r@ == s@.subrange(desde as int, i as int),
        decreases hasta - i,
    {
        assert(s@.subrange(desde as int, i + 1) =~= s@.subrange(desde as int, i as int).push(
            s@[i as int],
        ));
        r.push(s[i]);
        i = i + 1;
    }
    r
}

/// Texto sin espacios en blanco al principio ni al final.
pub fn recortar_caracteres(s: &[char]) -> (r: Vec<char>)
    ensures
        r@ == recortar(s@),
{
    let inicio = saltar_espacios(s, 0);
    assert(s@.skip(0) =~= s@);
    let mut fin = s.len();
    let ghost t = s@.skip(inicio as int);
    assert(t =~= s@.subrange(inicio as int, fin as int));
    while fin > inicio && es_espacio_en_blanco(s[fin - 1])
        invariant
            inicio <= fin <= s@.len(),
            t == s@.skip(inicio as int),
            recortar_fin(t) == recortar_fin(s@.subrange(inicio as int, fin as int)),
        decreases fin,
    {
        assert(s@.subrange(inicio as int, fin as int).drop_last() =~= s@.subrange(
            inicio as int,
            fin - 1,
        ));
        fin = fin - 1;
    }
    slice_a_vec(s, inicio, fin)
}

/// Agrega los caracteres de `s` al final de `destino`.
pub fn agregar_texto(destino: &mut Vec<char>, s: &str)
    ensures
        final(destino)@ == old(destino)@ + s@,
{
    let v = caracteres(s);
    let mut i: usize = 0;
    while i < v.len()
        invariant
            i <= v@.len(),
            v@ == s@,
            destino@ == old(destino)@ + v@.take(i as int),
        decreases v@.len() - i,
    {
        assert(v@.take(i + 1) =~= v@.take(i as int).push(v@[i as int]));
        destino.push(v[i]);
        i = i + 1;
    }
    assert(v@.take(i as int) =~= v@);
}

/// Dígito decimal de un valor entre 0 y 9.
pub open spec fn digito_decimal(n: nat) -> char {
    (48 + n) as char
}

/// Escritura decimal de un número natural (como `{}` para enteros sin signo).
pub open spec fn decimal(n: nat) -> Seq<char>
    decreases n,
{
    if n < 10 {
        seq![digito_decimal(n)]
    } else {
        decimal(n / 10) + seq![digito_decimal(n % 10)]
    }
}

/// Agrega la escritura decimal de `n` al final de `destino`.
pub fn agregar_decimal(destino: &mut Vec<char>, n: usize)
    ensures
        final(destino)@ == old(destino)@ + decimal(n as nat),
    decreases n,
{
    if n >= 10 {
        agregar_decimal(destino, n / 10);
    }
    let d: u8 = (n % 10) as u8;
    destino.push((48u8 + d) as char);
    if n >= 10 {
        assert(destino@ =~= old(destino)@ + decimal(n as nat));
    } else {
        assert(destino@ =~= old(destino)@ + decimal(n as nat));
    }
}

/// Caracteres iniciales hasta la primera aparición de `c` (todos si no aparece).
pub open spec fn antes_de(s: Seq<char>, c: char) -> Seq<char>
    decreases s.len(),
{
    if s.len() == 0 || s[0] == c {
        Seq::empty()
    } else {
        seq![s[0]] + antes_de(s.drop_first(), c)
    }
}

pub proof fn lema_antes_de(s: Seq<char>, c: char)
    ensures
        antes_de(s, c).len() <= s.len(),
        antes_de(s, c) == s.take(antes_de(s, c).len() as int),
        s.contains(c) <==> antes_de(s, c).len() < s.len(),
        antes_de(s, c).len() < s.len() ==> s[antes_de(s, c).len() as int] == c,
        !antes_de(s, c).contains(c),
    decreases s.len(),
{
    if s.len() == 0 {
    } else if s[0] == c {
        assert(s.take(0) =~= Seq::<char>::empty());
    } else {
        lema_antes_de(s.drop_first(), c);
        let a = antes_de(s, c);
        assert(a =~= s.take(a.len() as int));
        if s.contains(c) {
            let i = choose|i: int| 0 <= i < s.len() && s[i] == c;
            assert(s.drop_first()[i - 1] == c);
        }
        if s.drop_first().contains(c) {
            let i = choose|i: int| 0 <= i < s.drop_first().len() && s.drop_first()[i] == c;
            assert(s[i + 1] == c);
        }
        if a.contains(c) {
            let i = choose|i: int| 0 <= i < a.len() && a[i] == c;
            assert(antes_de(s.drop_first(), c)[i - 1] == c);
        }
    }
}

/// Posición de la primera aparición de `c` en `s`, si aparece.
pub fn buscar_caracter(s: &[char], c: char) -> (r: Option<usize>)
    ensures
        match r {
            Some(i) => s@.contains(c) && i == antes_de(s@, c).len(),
            None => !s@.contains(c),
        },
{
    proof {
        lema_antes_de(s@, c);
    }
    let mut i: usize = 0;
    while i < s.len()
        invariant
            i <= s@.len(),
            forall|j: int| 0 <= j < i ==> s@[j] != c,
            antes_de(s@, c).len() >= i,
            antes_de(s@, c) == s@.take(antes_de(s@, c).len() as int),
            s@.contains(c) <==> antes_de(s@, c).len() < s@.len(),
            antes_de(s@, c).len() < s@.len() ==> s@[antes_de(s@, c).len() as int] == c,
            !antes_de(s@, c).contains(c),
        decreases s@.len() - i,
    {
        if s[i] == c {
            assert(s@.contains(c));
            proof {
                if antes_de(s@, c).len() > i as nat {
                    assert(antes_de(s@, c)[i as int] == c);
                }
            }
            return Some(i);
        }
        assert(antes_de(s@, c).len() != i);
        i = i + 1;
    }
    None
}

/// Ningún caracter es espacio en blanco.
pub open spec fn sin_espacios(s: Seq<char>) -> bool {
    forall|i: int| 0 <= i < s.len() ==> !espacio_en_blanco(#[trigger] s[i])
}

pub proof fn lema_recortar_inicio_sin_espacio_inicial(s: Seq<char>)
    requires
        s.len() == 0 || !espacio_en_blanco(s[0]),
    ensures
        recortar_inicio(s) == s,
{
}

pub proof fn lema_recortar_sin_espacios(s: Seq<char>)
    requires
        sin_espacios(s),
    ensures
        recortar(s) == s,
{
    if s.len() > 0 {
        assert(!espacio_en_blanco(s[0]));
        assert(!espacio_en_blanco(s.last()));
    }
}

pub proof fn lema_primera_palabra_concat(w: Seq<char>, t: Seq<char>)
    requires
        sin_espacios(w),
        t.len() == 0 || espacio_en_blanco(t[0]),
    ensures
        primera_palabra(w + t) == w,
    decreases w.len(),
{
    if w.len() == 0 {
        assert(w + t =~= t);
        assert(w =~= Seq::<char>::empty());
    } else {
        assert(!espacio_en_blanco(w[0]));
        let w1 = w.drop_first();
        assert(sin_espacios(w1)) by {
            assert forall|i: int| 0 <= i < w1.len() implies !espacio_en_blanco(#[trigger] w1[i]) by {
                assert(w1[i] == w[i + 1]);
            }
        }
        lema_primera_palabra_concat(w1, t);
        assert((w + t).drop_first() =~= w1 + t);
        assert(seq![w[0]] + w1 =~= w);
    }
}

/// Las palabras de un texto sin espacios y no vacío son sólo él.
pub proof fn lema_palabras_una(x: Seq<char>)
    requires
        sin_espacios(x),
        x.len() > 0,
    ensures
        palabras(x) == seq![x],
{
    assert(!espacio_en_blanco(x[0]));
    lema_recortar_inicio_sin_espacio_inicial(x);
    lema_primera_palabra_concat(x, Seq::empty());
    assert(x + Seq::<char>::empty() =~= x);
    assert(primera_palabra(x) == x);
    assert(x.skip(x.len() as int) =~= Seq::<char>::empty());
    assert(recortar_inicio(Seq::<char>::empty()) == Seq::<char>::empty());
    assert(palabras(Seq::<char>::empty()) == Seq::<Seq<char>>::empty());
    assert(palabras(x.skip(x.len() as int)) == Seq::<Seq<char>>::empty());
    assert(seq![x] + Seq::<Seq<char>>::empty() =~= seq![x]);
}

/// Las palabras de dos textos sin espacios, no vacíos, separados por un
/// espacio, son esos dos textos.
pub proof fn lema_palabras_dos(w: Seq<char>, x: Seq<char>)
    requires
        sin_espacios(w),
        sin_espacios(x),
        w.len() > 0,
        x.len() > 0,
    ensures
        palabras(w + seq![' '] + x) == seq![w, x],
{
    let s = w + seq![' '] + x;
    assert(s[0] == w[0]);
    assert(!espacio_en_blanco(w[0]));
    lema_recortar_inicio_sin_espacio_inicial(s);
    let t = seq![' '] + x;
    assert(s =~= w + t);
    lema_primera_palabra_concat(w, t);
    let resto = s.skip(w.len() as int);
    assert(resto =~= t);
    assert(t.drop_first() =~= x);
    assert(!espacio_en_blanco(x[0]));
    lema_recortar_inicio_sin_espacio_inicial(x);
    assert(recortar_inicio(t) == x);
    lema_palabras_una(x);
    lema_primera_palabra_concat(x, Seq::empty());
    assert(x + Seq::<char>::empty() =~= x);
    assert(primera_palabra(x) == x);
    assert(x.skip(x.len() as int) =~= Seq::<char>::empty());
    assert(recortar_inicio(Seq::<char>::empty()) == Seq::<char>::empty());
    assert(palabras(Seq::<char>::empty()) == Seq::<Seq<char>>::empty());
    assert(t.len() <= s.len());
    assert(palabras(t) == seq![x] + palabras(x.skip(x.len() as int)));
    assert(seq![x] + Seq::<Seq<char>>::empty() =~= seq![x]);
    assert(palabras(t) == seq![x]);
    assert(palabras(s) == seq![w] + palabras(resto));
    assert(seq![w] + seq![x] =~= seq![w, x]);
}

} // verus!
