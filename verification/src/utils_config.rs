//! Interpretación del archivo de configuración: una línea `clave: valor`
//! por opción; las líneas vacías y las que empiezan con `#` se ignoran.
//! Abrir y leer el archivo queda a cargo de quien usa la biblioteca.
use vstd::prelude::*;
use vstd::hash_map::StringHashMap;

use crate::texto::{
    agregar_decimal, agregar_texto, antes_de, buscar_caracter, caracteres, decimal, recortar,
    recortar_caracteres, slice_a_vec, texto_desde,
};

verus! {

broadcast use vstd::hash_map::group_hash_map_axioms;

/// Caracter que marca una línea como comentario.
pub const CARACTER_COMENTARIO: char = '#';

/// Opciones de configuración: valor de cada clave.
pub struct Configuracion {
    valores: StringHashMap<String>,
}

impl View for Configuracion {
    type V = Map<Seq<char>, Seq<char>>;

    closed spec fn view(&self) -> Map<Seq<char>, Seq<char>> {
        self.valores@.map_values(|s: String| s@)
    }
}

impl Configuracion {
    /// Configuración sin opciones.
    pub fn new() -> (r: Self)
        ensures
            r@ == Map::<Seq<char>, Seq<char>>::empty(),
    {
        let r = Configuracion { valores: StringHashMap::new() };
        assert(r@ =~= Map::<Seq<char>, Seq<char>>::empty());
        r
    }

    /// Valor de la clave, si está.
    pub fn obtener(&self, clave: &str) -> (r: Option<String>)
        ensures
            match r {
                Some(v) => self@.contains_key(clave@) && self@[clave@] == v@,
                None => !self@.contains_key(clave@),
            },
    {
        match self.valores.get(clave) {
            Some(v) => Some(v.clone()),
            None => None,
        }
    }
}

/// Mensaje de error por un archivo de configuración que no existe.
pub open spec fn error_archivo_inexistente(ruta: Seq<char>) -> Seq<char> {
    "El archivo de configuración '"@ + ruta + "' no existe."@
}

/// Resultado de validar el archivo de configuración de la ruta dada, según
/// si existe (averiguarlo queda a cargo de quien usa la biblioteca).
pub fn validar_archivo(ruta: &str, existe: bool) -> (r: Result<(), String>)
    ensures
        existe ==> r is Ok,
        !existe ==> (r matches Err(e) && e@ == error_archivo_inexistente(ruta@)),
{
    if !existe {
        let mut msg: Vec<char> = Vec::new();
        agregar_texto(&mut msg, "El archivo de configuración '");
        agregar_texto(&mut msg, ruta);
        agregar_texto(&mut msg, "' no existe.");
        assert(msg@ =~= error_archivo_inexistente(ruta@));
        return Err(texto_desde(msg.as_slice()));
    }
    Ok(())
}

/// Mensaje de error por una línea sin el formato `clave: valor`.
pub open spec fn error_formato(numero_linea: nat, linea: Seq<char>) -> Seq<char> {
    "Formato incorrecto en la línea "@ + decimal(numero_linea) + ": '"@ + linea
        + "'. Se esperaba 'clave: valor'."@
}

/// Mensaje de error por una clave repetida.
pub open spec fn error_duplicada(clave: Seq<char>, numero_linea: nat) -> Seq<char> {
    "Clave duplicada '"@ + clave + "' en línea "@ + decimal(numero_linea)
}

/// Mensaje de error por una clave que no está en la configuración.
pub open spec fn error_clave_inexistente(clave: Seq<char>) -> Seq<char> {
    "La clave '"@ + clave + "' no fue encontrada dentro del archivo de configuración."@
}

/// Efecto de procesar una línea `clave: valor`: la clave es lo anterior al
/// primer `:` y el valor lo posterior, ambos sin espacios al principio ni al
/// final. Sin `:` o con valor vacío es un error de formato; una clave ya
/// presente es un error de clave duplicada.
pub open spec fn linea_procesada(
    m: Map<Seq<char>, Seq<char>>,
    linea: Seq<char>,
    numero_linea: nat,
) -> Result<Map<Seq<char>, Seq<char>>, Seq<char>> {
    if !linea.contains(':') {
        Err(error_formato(numero_linea, linea))
    } else {
        let clave = recortar(antes_de(linea, ':'));
        let valor = recortar(linea.skip(antes_de(linea, ':').len() as int + 1));
        if m.contains_key(clave) {
            Err(error_duplicada(clave, numero_linea))
        } else if valor.len() == 0 {
            Err(error_formato(numero_linea, linea))
        } else {
            Ok(m.insert(clave, valor))
        }
    }
}

/// Procesa una línea `clave: valor` y guarda la opción. Devuelve error si
/// la línea no tiene ese formato, si el valor es vacío o si la clave ya
/// estaba; en ese caso la configuración no cambia.
pub fn procesar_linea(hash_config: &mut Configuracion, linea: &str, numero_linea: usize) -> (r:
    Result<(), String>)
    ensures
        match (r, linea_procesada(old(hash_config)@, linea@, numero_linea as nat)) {
            (Ok(()), Ok(m)) => final(hash_config)@ == m,
            (Err(e), Err(f)) => e@ == f && final(hash_config)@ == old(hash_config)@,
            _ => false,
        },
{
    let texto = caracteres(linea);
    match buscar_caracter(texto.as_slice(), ':') {
        None => {
            let mut msg: Vec<char> = Vec::new();
            agregar_texto(&mut msg, "Formato incorrecto en la línea ");
            agregar_decimal(&mut msg, numero_linea);
            agregar_texto(&mut msg, ": '");
            agregar_texto(&mut msg, linea);
            agregar_texto(&mut msg, "'. Se esperaba 'clave: valor'.");
            assert(msg@ =~= error_formato(numero_linea as nat, linea@));
            Err(texto_desde(msg.as_slice()))
        },
        Some(i) => {
            proof {
                crate::texto::lema_antes_de(linea@, ':');
            }
            assert(i < texto@.len());
            let antes = slice_a_vec(texto.as_slice(), 0, i);
            assert(antes@ =~= antes_de(linea@, ':'));
            let despues = slice_a_vec(texto.as_slice(), i + 1, texto.len());
            assert(despues@ =~= linea@.skip(i + 1));
            let clave_v = recortar_caracteres(antes.as_slice());
            let valor_v = recortar_caracteres(despues.as_slice());
            let clave = texto_desde(clave_v.as_slice());
            if hash_config.valores.contains_key(clave.as_str()) {
                let mut msg: Vec<char> = Vec::new();
                agregar_texto(&mut msg, "Clave duplicada '");
                agregar_texto(&mut msg, clave.as_str());
                agregar_texto(&mut msg, "' en línea ");
                agregar_decimal(&mut msg, numero_linea);
                assert(msg@ =~= error_duplicada(clave@, numero_linea as nat));
                return Err(texto_desde(msg.as_slice()));
            }
            if valor_v.len() == 0 {
                let mut msg: Vec<char> = Vec::new();
                agregar_texto(&mut msg, "Formato incorrecto en la línea ");
                agregar_decimal(&mut msg, numero_linea);
                agregar_texto(&mut msg, ": '");
                agregar_texto(&mut msg, linea);
                agregar_texto(&mut msg, "'. Se esperaba 'clave: valor'.");
                assert(msg@ =~= error_formato(numero_linea as nat, linea@));
                return Err(texto_desde(msg.as_slice()));
            }
            let valor = texto_desde(valor_v.as_slice());
            let ghost antes_m = hash_config.valores@;
            hash_config.valores.insert(clave, valor);
            assert(hash_config@ =~= antes_m.map_values(|s: String| s@).insert(
                recortar(antes_de(linea@, ':')),
                recortar(linea@.skip(antes_de(linea@, ':').len() as int + 1)),
            ));
            Ok(())
        },
    }
}

/// Una línea se ignora si, sin espacios al principio ni al final, queda
/// vacía o empieza con `#`.
pub open spec fn linea_ignorada(linea: Seq<char>) -> bool {
    recortar(linea).len() == 0 || recortar(linea)[0] == CARACTER_COMENTARIO
}

/// Efecto de procesar las líneas en orden (numeradas desde 1): la
/// configuración resultante, o el error de la primera línea inválida.
pub open spec fn lineas_procesadas(lineas: Seq<Seq<char>>) -> Result<Map<Seq<char>, Seq<char>>, Seq<char>>
    decreases lineas.len(),
{
    if lineas.len() == 0 {
        Ok(Map::empty())
    } else {
        match lineas_procesadas(lineas.drop_last()) {
            Err(e) => Err(e),
            Ok(m) => if linea_ignorada(lineas.last()) {
                Ok(m)
            } else {
                linea_procesada(m, recortar(lineas.last()), lineas.len() as nat)
            },
        }
    }
}

proof fn lema_error_se_propaga(ls: Seq<Seq<char>>, k: int, f: Seq<char>)
    requires
        0 <= k <= ls.len(),
        lineas_procesadas(ls.take(k)) == Err::<Map<Seq<char>, Seq<char>>, Seq<char>>(f),
    ensures
        lineas_procesadas(ls) == Err::<Map<Seq<char>, Seq<char>>, Seq<char>>(f),
    decreases ls.len() - k,
{
    if k == ls.len() {
        assert(ls.take(k) =~= ls);
    } else {
        assert(ls.take(k + 1).drop_last() =~= ls.take(k));
        lema_error_se_propaga(ls, k + 1, f);
    }
}

/// Procesa las líneas del archivo de configuración, en orden: cada una se
/// recorta; las vacías y los comentarios se ignoran, y las demás se
/// procesan con [`procesar_linea`] con su número de línea (desde 1). Se
/// detiene en el primer error.
pub fn procesar_lineas(lineas: &Vec<String>) -> (r: Result<Configuracion, String>)
    ensures
        match (r, lineas_procesadas(lineas@.map_values(|s: String| s@))) {
            (Ok(c), Ok(m)) => c@ == m,
            (Err(e), Err(f)) => e@ == f,
            _ => false,
        },
{
    let ghost ls = lineas@.map_values(|s: String| s@);
    let mut config = Configuracion::new();
    let mut i: usize = 0;
    assert(ls.take(0) =~= Seq::<Seq<char>>::empty());
    while i < lineas.len()
        invariant
            i <= lineas@.len(),
            ls == lineas@.map_values(|s: String| s@),
            lineas_procesadas(ls.take(i as int)) == Ok::<Map<Seq<char>, Seq<char>>, Seq<char>>(
                config@,
            ),
        decreases lineas@.len() - i,
    {
        assert(ls.take(i + 1).drop_last() =~= ls.take(i as int));
        assert(ls.take(i + 1).last() == lineas@[i as int]@);
        let linea = recortar_caracteres(caracteres(lineas[i].as_str()).as_slice());
        if linea.len() == 0 || linea[0] == CARACTER_COMENTARIO {
            i = i + 1;
        } else {
            let texto = texto_desde(linea.as_slice());
            match procesar_linea(&mut config, texto.as_str(), i + 1) {
                Ok(()) => {
                    i = i + 1;
                },
                Err(e) => {
                    proof {
                        lema_error_se_propaga(ls, i + 1, e@);
                    }
                    return Err(e);
                },
            }
        }
    }
    assert(ls.take(i as int) =~= ls);
    Ok(config)
}

/// Valor de la clave en la configuración, o un error si no está.
pub fn verificar_existencia_clave(configs: &Configuracion, clave: &str) -> (r: Result<
    String,
    String,
>)
    ensures
        configs@.contains_key(clave@) ==> (r matches Ok(v) && v@ == configs@[clave@]),
        !configs@.contains_key(clave@) ==> (r matches Err(e) && e@ == error_clave_inexistente(
            clave@,
        )),
{
    match configs.obtener(clave) {
        Some(v) => Ok(v),
        None => {
            let mut msg: Vec<char> = Vec::new();
            agregar_texto(&mut msg, "La clave '");
            agregar_texto(&mut msg, clave);
            agregar_texto(&mut msg, "' no fue encontrada dentro del archivo de configuración.");
            assert(msg@ =~= error_clave_inexistente(clave@));
            Err(texto_desde(msg.as_slice()))
        },
    }
}

} // verus!
