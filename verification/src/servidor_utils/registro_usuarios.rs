//! Registro de usuarios y contraseñas, con alta, autenticación y listado.
use vstd::prelude::*;
use vstd::hash_map::StringHashMap;

use crate::servidor_utils::persistencia::vista_pares;
use crate::servidor_utils::tablas::{con_usuario, ConjuntoUsuarios};

verus! {

broadcast use vstd::hash_map::group_hash_map_axioms;

/// Registro de usuarios: nombre y contraseña de cada uno, y los nombres en
/// el orden en que se registraron.
pub struct RegistroUsuarios {
    nombres: ConjuntoUsuarios,
    contrasenas: StringHashMap<String>,
}

/// Usuarios de `m` más los pares de `l`, en orden (cada par reemplaza la
/// contraseña anterior del mismo nombre).
pub open spec fn con_pares(m: Map<Seq<char>, Seq<char>>, l: Seq<(Seq<char>, Seq<char>)>) -> Map<
    Seq<char>,
    Seq<char>,
>
    decreases l.len(),
{
    if l.len() == 0 {
        m
    } else {
        con_pares(m, l.drop_last()).insert(l.last().0, l.last().1)
    }
}

impl View for RegistroUsuarios {
    type V = Map<Seq<char>, Seq<char>>;

    closed spec fn view(&self) -> Map<Seq<char>, Seq<char>> {
        self.contrasenas@.map_values(|s: String| s@)
    }
}

impl RegistroUsuarios {
    /// Nombres registrados, en el orden en que se registraron.
    pub closed spec fn orden(&self) -> Seq<Seq<char>> {
        self.nombres@
    }

    /// Registro bien formado: los nombres en orden, sin repetidos, son
    /// exactamente los registrados.
    pub closed spec fn bien_formado(&self) -> bool {
        &&& self.nombres.bien_formado()
        &&& self.contrasenas@.dom().finite()
        &&& forall|k: Seq<char>| #[trigger]
            self.nombres@.contains(k) <==> self.contrasenas@.contains_key(k)
    }

    /// En un registro bien formado, los nombres en orden de registro no se
    /// repiten y son exactamente los de los usuarios registrados.
    pub proof fn lema_orden(&self)
        requires
            self.bien_formado(),
        ensures
            self.orden().no_duplicates(),
            forall|k: Seq<char>| #[trigger] self.orden().contains(k) <==> self@.contains_key(k),
    {
    }

    /// Crea un registro de usuarios vacío.
    pub fn crear_registro_usuarios() -> (r: Self)
        ensures
            r.bien_formado(),
            r@ == Map::<Seq<char>, Seq<char>>::empty(),
            r.orden() == Seq::<Seq<char>>::empty(),
    {
        let r = RegistroUsuarios { nombres: ConjuntoUsuarios::new(), contrasenas: StringHashMap::new() };
        assert(r@ =~= Map::<Seq<char>, Seq<char>>::empty());
        r
    }

    fn insertar(&mut self, nombre: String, contrasena: String)
        requires
            old(self).bien_formado(),
        ensures
            final(self).bien_formado(),
            final(self)@ == old(self)@.insert(nombre@, contrasena@),
            final(self).orden() == con_usuario(old(self).orden(), nombre@),
    {
        let ghost antes = self.contrasenas@;
        self.contrasenas.insert(nombre.clone(), contrasena);
        assert(self@ =~= antes.map_values(|s: String| s@).insert(nombre@, contrasena@));
        let ghost nv = nombre@;
        let ghost viejos = self.nombres@;
        self.nombres.insertar(nombre);
        assert forall|k: Seq<char>| #[trigger]
            self.nombres@.contains(k) <==> self.contrasenas@.contains_key(k) by {
            if !viejos.contains(nv) {
                if viejos.contains(k) {
                    let i = choose|i: int| 0 <= i < viejos.len() && viejos[i] == k;
                    assert(self.nombres@[i] == k);
                }
                if k == nv {
                    assert(self.nombres@[viejos.len() as int] == k);
                }
                if self.nombres@.contains(k) && k != nv {
                    let i = choose|i: int| 0 <= i < self.nombres@.len() && self.nombres@[i] == k;
                    assert(viejos[i] == k);
                }
            }
        }
    }

    /// Registra un usuario nuevo. Si el nombre ya existe devuelve el error
    /// `"El nombre de usuario ya existe"` y no cambia nada.
    pub fn registrar_usuario(&mut self, nombre: &str, contrasena: &str) -> (r: Result<(), String>)
        requires
            old(self).bien_formado(),
        ensures
            final(self).bien_formado(),
            old(self)@.contains_key(nombre@) ==> (r matches Err(e) && e@
                == "El nombre de usuario ya existe"@),
            old(self)@.contains_key(nombre@) ==> final(self)@ == old(self)@,
            old(self)@.contains_key(nombre@) ==> final(self).orden() == old(self).orden(),
            !old(self)@.contains_key(nombre@) ==> (r is Ok && final(self)@ == old(self)@.insert(
                nombre@,
                contrasena@,
            ) && final(self).orden() == old(self).orden().push(nombre@)),
    {
        if self.contrasenas.contains_key(nombre) {
            return Err("El nombre de usuario ya existe".to_owned());
        }
        self.insertar(nombre.to_owned(), contrasena.to_owned());
        Ok(())
    }

    /// Autentica un usuario: `Ok` si está registrado con esa contraseña; si
    /// no, el error `"Credenciales incorrectas"`.
    pub fn autenticar_usuario(&self, nombre: &str, contrasena: &str) -> (r: Result<(), String>)
        ensures
            (self@.contains_key(nombre@) && self@[nombre@] == contrasena@) ==> r is Ok,
            !(self@.contains_key(nombre@) && self@[nombre@] == contrasena@) ==> (r matches Err(e)
                && e@ == "Credenciales incorrectas"@),
    {
        let dada = contrasena.to_owned();
        match self.contrasenas.get(nombre) {
            Some(almacenada) => {
                if *almacenada == dada {
                    Ok(())
                } else {
                    Err("Credenciales incorrectas".to_owned())
                }
            },
            None => Err("Credenciales incorrectas".to_owned()),
        }
    }

    /// Nombres de todos los usuarios registrados, en el orden en que se
    /// registraron.
    pub fn obtener_usuarios(&self) -> (r: Result<Vec<String>, String>)
        requires
            self.bien_formado(),
        ensures
            r matches Ok(v) && v@.map_values(|s: String| s@) == self.orden(),
    {
        let elems = self.nombres.elementos();
        let mut r: Vec<String> = Vec::new();
        let mut i: usize = 0;
        while i < elems.len()
            invariant
                i <= elems@.len(),
                elems@.map_values(|s: String| s@) == self.orden(),
                r@.map_values(|s: String| s@) == self.orden().take(i as int),
            decreases elems@.len() - i,
        {
            let ghost r0 = r@.map_values(|s: String| s@);
            r.push(elems[i].clone());
            assert(r@.map_values(|s: String| s@) =~= r0.push(elems@[i as int]@));
            assert(self.orden().take(i + 1) =~= self.orden().take(i as int).push(
                self.orden()[i as int],
            ));
            i = i + 1;
        }
        assert(self.orden().take(i as int) =~= self.orden());
        Ok(r)
    }

    /// Pares (nombre, contraseña) de todos los usuarios registrados, en el
    /// orden en que se registraron.
    pub fn obtener_info_completa_usuarios_tuplas(&self) -> (r: Result<Vec<(String, String)>, String>)
        requires
            self.bien_formado(),
        ensures
            r matches Ok(v) && vista_pares(v@) == self.orden().map_values(
                |k: Seq<char>| (k, self@[k]),
            ),
    {
        let elems = self.nombres.elementos();
        let ghost esperado = self.orden().map_values(|k: Seq<char>| (k, self@[k]));
        let mut r: Vec<(String, String)> = Vec::new();
        let mut i: usize = 0;
        while i < elems.len()
            invariant
                i <= elems@.len(),
                self.bien_formado(),
                elems@.map_values(|s: String| s@) == self.orden(),
                esperado == self.orden().map_values(|k: Seq<char>| (k, self@[k])),
                vista_pares(r@) == esperado.take(i as int),
            decreases elems@.len() - i,
        {
            let nombre = &elems[i];
            assert(self.orden()[i as int] == nombre@);
            assert(self.orden().contains(nombre@));
            let contrasena = match self.contrasenas.get(nombre.as_str()) {
                Some(c) => c.clone(),
                None => String::new(),
            };
            let ghost r0 = vista_pares(r@);
            r.push((nombre.clone(), contrasena));
            assert(vista_pares(r@) =~= r0.push(esperado[i as int]));
            assert(esperado.take(i + 1) =~= esperado.take(i as int).push(esperado[i as int]));
            i = i + 1;
        }
        assert(esperado.take(i as int) =~= esperado);
        Ok(r)
    }

    /// Carga varios usuarios (por ejemplo, los leídos del archivo); cada par
    /// reemplaza la contraseña anterior del mismo nombre.
    pub fn cargar_usuarios(&mut self, datos: Vec<(String, String)>) -> (r: Result<(), String>)
        requires
            old(self).bien_formado(),
        ensures
            r is Ok,
            final(self).bien_formado(),
            final(self)@ == con_pares(old(self)@, vista_pares(datos@)),
    {
        let ghost l = vista_pares(datos@);
        let mut i: usize = 0;
        assert(l.take(0) =~= Seq::<(Seq<char>, Seq<char>)>::empty());
        while i < datos.len()
            invariant
                i <= datos@.len(),
                l == vista_pares(datos@),
                self.bien_formado(),
                self@ == con_pares(old(self)@, l.take(i as int)),
            decreases datos@.len() - i,
        {
            assert(l.take(i + 1).drop_last() =~= l.take(i as int));
            assert(l.take(i + 1).last() == (datos@[i as int].0@, datos@[i as int].1@));
            self.insertar(datos[i].0.clone(), datos[i].1.clone());
            i = i + 1;
        }
        assert(l.take(i as int) =~= l);
        Ok(())
    }
}

/// Luego de registrar un nombre nuevo con una contraseña, ese usuario se
/// autentica con esa contraseña y con ninguna otra, y los demás usuarios
/// conservan la suya.
pub proof fn ley_registrar_y_autenticar(
    m: Map<Seq<char>, Seq<char>>,
    nombre: Seq<char>,
    contrasena: Seq<char>,
    otra: Seq<char>,
)
    requires
        !m.contains_key(nombre),
    ensures
        m.insert(nombre, contrasena).contains_key(nombre),
        m.insert(nombre, contrasena)[nombre] == contrasena,
        otra != contrasena ==> m.insert(nombre, contrasena)[nombre] != otra,
        forall|k: Seq<char>|
            k != nombre && m.contains_key(k) ==> #[trigger] m.insert(nombre, contrasena)[k] == m[k],
{
}

} // verus!
