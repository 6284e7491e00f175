//! Servidor central: registra e inicia la sesión de los usuarios, lleva su
//! estado (disponible, ocupado, desconectado), avisa a los usuarios
//! disponibles de cada cambio y reenvía la señalización de las llamadas.
//!
//! El servidor no envía nada por sí mismo: cada mensaje que recibe produce
//! una lista de acciones (envíos por una conexión, o guardar un usuario
//! nuevo) que ejecuta quien lo hace correr, y que luego le informa cuáles
//! fallaron. Un envío fallido significa que ese usuario se desconectó de
//! golpe: el servidor lo pasa a desconectado y avisa al resto, lo que puede
//! producir nuevos envíos fallidos, y así hasta que no queda ninguno.
use vstd::prelude::*;
use vstd::hash_map::StringHashMap;

use crate::servidor_utils::error::ErrorServidorCentral;
use crate::servidor_utils::estado_usuario::EstadoUsuario;
use crate::servidor_utils::persistencia::vista_pares;
use crate::servidor_utils::mensajes::{
    vista_acciones, Accion, AccionV, MensajeServidor, MensajeUsuario, MensajeUsuarioV,
};
use crate::servidor_utils::tablas::{
    claves_unicas, con_estado, con_usuario, estado_de, lema_con_estado, lema_modificar_estado, tiene_clave,
    lema_sin_clave, modificar_estado, sin_clave, sin_usuario, ConjuntoUsuarios, TablaEstados,
};
use crate::texto::{caracteres, recortar, recortar_caracteres, texto_desde};

verus! {

broadcast use vstd::hash_map::group_hash_map_axioms;

/// Qué hace el servidor si falla una acción del último lote.
pub enum Consecuencia {
    /// Nada.
    Ignorar,
    /// El usuario se desconectó de golpe.
    Desconectar(String),
    /// No se pudo guardar un usuario nuevo: el servidor se detiene.
    Abortar,
    /// El resultado decide cómo sigue el mensaje en curso.
    Rama,
}

/// Contenido de una [`Consecuencia`].
pub enum ConsecuenciaV {
    Ignorar,
    Desconectar(Seq<char>),
    Abortar,
    Rama,
}

impl View for Consecuencia {
    type V = ConsecuenciaV;

    open spec fn view(&self) -> ConsecuenciaV {
        match self {
            Consecuencia::Ignorar => ConsecuenciaV::Ignorar,
            Consecuencia::Desconectar(u) => ConsecuenciaV::Desconectar(u@),
            Consecuencia::Abortar => ConsecuenciaV::Abortar,
            Consecuencia::Rama => ConsecuenciaV::Rama,
        }
    }
}

/// Lo que queda por hacer de un mensaje cuando se conozca el resultado del
/// último lote (y de las desconexiones que produzca).
pub enum Continuacion {
    /// Avisar a los disponibles del usuario recién registrado.
    NotificarRegistro(String),
    /// Terminar el inicio de sesión del usuario.
    ContinuarLogin(String),
    /// Terminar el paso a disponible del usuario.
    ContinuarDisponible(String),
    /// Pasar a ocupados a quien envió la answer y a quien la recibe.
    ContinuarAnswer(String, String),
}

/// Contenido de una [`Continuacion`].
pub enum ContinuacionV {
    NotificarRegistro(Seq<char>),
    ContinuarLogin(Seq<char>),
    ContinuarDisponible(Seq<char>),
    ContinuarAnswer(Seq<char>, Seq<char>),
}

impl View for Continuacion {
    type V = ContinuacionV;

    open spec fn view(&self) -> ContinuacionV {
        match self {
            Continuacion::NotificarRegistro(u) => ContinuacionV::NotificarRegistro(u@),
            Continuacion::ContinuarLogin(u) => ContinuacionV::ContinuarLogin(u@),
            Continuacion::ContinuarDisponible(u) => ContinuacionV::ContinuarDisponible(u@),
            Continuacion::ContinuarAnswer(e, r) => ContinuacionV::ContinuarAnswer(e@, r@),
        }
    }
}

/// Estado del servidor: límite de conexiones, usuarios registrados con su
/// contraseña, estado de cada usuario, conexión de cada usuario conectado,
/// usuarios disponibles, y lo pendiente del mensaje en curso.
#[verifier::ext_equal]
pub struct ModeloServidor {
    pub limite: usize,
    pub usuarios: Map<Seq<char>, Seq<char>>,
    pub estados: Seq<(Seq<char>, EstadoUsuario)>,
    pub conexiones: Map<Seq<char>, u64>,
    pub disponibles: Seq<Seq<char>>,
    pub consecuencias: Seq<ConsecuenciaV>,
    pub continuacion: Option<ContinuacionV>,
}

/// Avisos de que `quien` pasó a `estado`, uno por cada usuario disponible
/// que tiene conexión, en el orden de los disponibles.
pub open spec fn avisos(
    disp: Seq<Seq<char>>,
    con: Map<Seq<char>, u64>,
    quien: Seq<char>,
    estado: EstadoUsuario,
) -> Seq<AccionV>
    decreases disp.len(),
{
    if disp.len() == 0 {
        Seq::empty()
    } else {
        let previos = avisos(disp.drop_last(), con, quien, estado);
        let d = disp.last();
        if con.contains_key(d) {
            previos.push(
                AccionV::Enviar(con[d], MensajeUsuarioV::ActualizarEstadoUsuario(quien, estado)),
            )
        } else {
            previos
        }
    }
}

/// Consecuencias de esos avisos: si falla el aviso a `d`, `d` se desconectó,
/// salvo que `d` ya esté en `excluidos`.
pub open spec fn marcas(disp: Seq<Seq<char>>, con: Map<Seq<char>, u64>, excluidos: Seq<Seq<char>>) -> Seq<
    ConsecuenciaV,
>
    decreases disp.len(),
{
    if disp.len() == 0 {
        Seq::empty()
    } else {
        let previas = marcas(disp.drop_last(), con, excluidos);
        let d = disp.last();
        if con.contains_key(d) {
            if excluidos.contains(d) {
                previas.push(ConsecuenciaV::Ignorar)
            } else {
                previas.push(ConsecuenciaV::Desconectar(d))
            }
        } else {
            previas
        }
    }
}

/// Avisos de que `emisor` y `receptor` pasaron a ocupados: dos por cada
/// usuario disponible con conexión.
pub open spec fn avisos_ocupados(
    disp: Seq<Seq<char>>,
    con: Map<Seq<char>, u64>,
    emisor: Seq<char>,
    receptor: Seq<char>,
) -> Seq<AccionV>
    decreases disp.len(),
{
    if disp.len() == 0 {
        Seq::empty()
    } else {
        let previos = avisos_ocupados(disp.drop_last(), con, emisor, receptor);
        let d = disp.last();
        if con.contains_key(d) {
            previos.push(
                AccionV::Enviar(
                    con[d],
                    MensajeUsuarioV::ActualizarEstadoUsuario(emisor, EstadoUsuario::Ocupado),
                ),
            ).push(
                AccionV::Enviar(
                    con[d],
                    MensajeUsuarioV::ActualizarEstadoUsuario(receptor, EstadoUsuario::Ocupado),
                ),
            )
        } else {
            previos
        }
    }
}

/// Consecuencias de los avisos de ocupados: sólo el primer aviso a cada
/// usuario decide si se desconectó.
pub open spec fn marcas_ocupados(disp: Seq<Seq<char>>, con: Map<Seq<char>, u64>) -> Seq<ConsecuenciaV>
    decreases disp.len(),
{
    if disp.len() == 0 {
        Seq::empty()
    } else {
        let previas = marcas_ocupados(disp.drop_last(), con);
        let d = disp.last();
        if con.contains_key(d) {
            previas.push(ConsecuenciaV::Desconectar(d)).push(ConsecuenciaV::Ignorar)
        } else {
            previas
        }
    }
}

/// Conexiones sin las de los usuarios dados.
pub open spec fn sin_conexiones(con: Map<Seq<char>, u64>, us: Seq<Seq<char>>) -> Map<Seq<char>, u64>
    decreases us.len(),
{
    if us.len() == 0 {
        con
    } else {
        sin_conexiones(con, us.drop_last()).remove(us.last())
    }
}

/// Estados con los usuarios dados pasados a desconectados.
pub open spec fn con_desconectados(est: Seq<(Seq<char>, EstadoUsuario)>, us: Seq<Seq<char>>) -> Seq<
    (Seq<char>, EstadoUsuario),
>
    decreases us.len(),
{
    if us.len() == 0 {
        est
    } else {
        con_estado(con_desconectados(est, us.drop_last()), us.last(), EstadoUsuario::Desconectado)
    }
}

/// Avisos de un nivel de desconexiones: para cada usuario de `us`, en orden,
/// se quita su conexión y se avisa a los disponibles que se desconectó.
pub open spec fn avisos_desconexion(
    con: Map<Seq<char>, u64>,
    disp: Seq<Seq<char>>,
    us: Seq<Seq<char>>,
) -> Seq<AccionV>
    decreases us.len(),
{
    if us.len() == 0 {
        Seq::empty()
    } else {
        avisos_desconexion(con, disp, us.drop_last()) + avisos(
            disp,
            sin_conexiones(con, us),
            us.last(),
            EstadoUsuario::Desconectado,
        )
    }
}

/// Consecuencias de los avisos de un nivel de desconexiones: los que fallen
/// y no estén ya en `todos` se desconectan en el nivel siguiente.
pub open spec fn marcas_desconexion(
    con: Map<Seq<char>, u64>,
    disp: Seq<Seq<char>>,
    us: Seq<Seq<char>>,
    todos: Seq<Seq<char>>,
) -> Seq<ConsecuenciaV>
    decreases us.len(),
{
    if us.len() == 0 {
        Seq::empty()
    } else {
        marcas_desconexion(con, disp, us.drop_last(), todos) + marcas(
            disp,
            sin_conexiones(con, us),
            todos,
        )
    }
}

/// Usuarios que se desconectaron según el resultado del último lote: los de
/// las acciones fallidas marcadas para desconectar, sin repetidos.
pub open spec fn a_desconectar(c: Seq<ConsecuenciaV>, fallidos: Seq<bool>) -> Seq<Seq<char>>
    decreases c.len(),
{
    if c.len() == 0 || fallidos.len() != c.len() {
        Seq::empty()
    } else {
        let previos = a_desconectar(c.drop_last(), fallidos.drop_last());
        match c.last() {
            ConsecuenciaV::Desconectar(u) => {
                if fallidos.last() && !previos.contains(u) {
                    previos.push(u)
                } else {
                    previos
                }
            },
            _ => previos,
        }
    }
}

/// Falló alguna acción con la consecuencia dada.
pub open spec fn fallo_con(c: Seq<ConsecuenciaV>, fallidos: Seq<bool>, k: ConsecuenciaV) -> bool {
    exists|i: int| 0 <= i < c.len() && i < fallidos.len() && fallidos[i] && c[i] == k
}


/// Contenido de una lista de consecuencias.
pub open spec fn vista_consecuencias(v: Seq<Consecuencia>) -> Seq<ConsecuenciaV> {
    v.map_values(|c: Consecuencia| c@)
}

/// Respuesta de error a quien envió el mensaje; no cambia nada más.
pub open spec fn responder_error(m: ModeloServidor, con: u64, texto: Seq<char>) -> (
    ModeloServidor,
    Seq<AccionV>,
) {
    (
        ModeloServidor { consecuencias: seq![ConsecuenciaV::Ignorar], continuacion: None, ..m },
        seq![AccionV::Enviar(con, MensajeUsuarioV::Error(texto))],
    )
}

/// Un mensaje al usuario `destino` si está conectado; si falla, se desconectó.
pub open spec fn un_envio(m: ModeloServidor, destino: Seq<char>, msg: MensajeUsuarioV) -> (
    ModeloServidor,
    Seq<AccionV>,
) {
    if m.conexiones.contains_key(destino) {
        (
            ModeloServidor {
                consecuencias: seq![ConsecuenciaV::Desconectar(destino)],
                continuacion: None,
                ..m
            },
            seq![AccionV::Enviar(m.conexiones[destino], msg)],
        )
    } else {
        (ModeloServidor { consecuencias: Seq::empty(), continuacion: None, ..m }, Seq::empty())
    }
}

/// Registro de un usuario: el nombre y la contraseña se recortan; el nombre
/// no puede ser vacío ni estar registrado, y la contraseña no puede ser
/// vacía. Si se acepta, se responde `Exito`, se lo agrega desconectado y se
/// pide guardarlo; luego se avisa a los disponibles.
pub open spec fn paso_registrar(m: ModeloServidor, u0: Seq<char>, p0: Seq<char>, con: u64) -> (
    ModeloServidor,
    Seq<AccionV>,
) {
    let u = recortar(u0);
    let p = recortar(p0);
    if u.len() == 0 {
        responder_error(m, con, "Usuario invalido"@)
    } else if m.usuarios.contains_key(u) {
        responder_error(m, con, "Nombre usuario no disponible"@)
    } else if p.len() == 0 {
        responder_error(m, con, "Contraseña invalida"@)
    } else {
        (
            ModeloServidor {
                usuarios: m.usuarios.insert(u, p),
                estados: con_estado(m.estados, u, EstadoUsuario::Desconectado),
                consecuencias: seq![ConsecuenciaV::Ignorar, ConsecuenciaV::Abortar],
                continuacion: Some(ContinuacionV::NotificarRegistro(u)),
                ..m
            },
            seq![AccionV::Enviar(con, MensajeUsuarioV::Exito), AccionV::Persistir(u, p)],
        )
    }
}

/// Inicio de sesión: el nombre se recorta y debe estar registrado, la
/// contraseña debe coincidir, el usuario no puede estar conectado y debe
/// haber lugar. Si se acepta, se lo conecta, se responde `Exito` y se le
/// envía el estado de los demás usuarios.
pub open spec fn paso_loguear(m: ModeloServidor, u0: Seq<char>, p: Seq<char>, con: u64) -> (
    ModeloServidor,
    Seq<AccionV>,
) {
    let u = recortar(u0);
    if !m.usuarios.contains_key(u) {
        responder_error(m, con, "Nombre usuario inexistente"@)
    } else if m.usuarios[u] != p {
        responder_error(m, con, "Contraseña incorrecta"@)
    } else if m.conexiones.contains_key(u) {
        responder_error(m, con, "Usuario ya logueado"@)
    } else if m.limite <= m.conexiones.len() {
        responder_error(m, con, "No hay lugar para una nueva conexion"@)
    } else {
        let est = sin_clave(m.estados, u);
        (
            ModeloServidor {
                conexiones: m.conexiones.insert(u, con),
                estados: est,
                consecuencias: seq![ConsecuenciaV::Ignorar, ConsecuenciaV::Rama],
                continuacion: Some(ContinuacionV::ContinuarLogin(u)),
                ..m
            },
            seq![
                AccionV::Enviar(con, MensajeUsuarioV::Exito),
                AccionV::Enviar(con, MensajeUsuarioV::EstadoUsuarios(est)),
            ],
        )
    }
}

/// El usuario queda disponible y se avisa a los demás disponibles.
pub open spec fn quedar_disponible(m: ModeloServidor, u: Seq<char>) -> (ModeloServidor, Seq<AccionV>) {
    (
        ModeloServidor {
            estados: con_estado(m.estados, u, EstadoUsuario::Disponible),
            disponibles: con_usuario(m.disponibles, u),
            consecuencias: marcas(m.disponibles, m.conexiones, Seq::empty()),
            continuacion: None,
            ..m
        },
        avisos(m.disponibles, m.conexiones, u, EstadoUsuario::Disponible),
    )
}

/// El usuario se desconecta: deja de estar disponible, su estado pasa a
/// desconectado si lo tenía, se avisa a los disponibles, se le confirma y
/// se quita su conexión.
pub open spec fn paso_desconectarse(m: ModeloServidor, u: Seq<char>) -> (ModeloServidor, Seq<AccionV>) {
    let disp = sin_usuario(m.disponibles, u);
    let acciones = avisos(disp, m.conexiones, u, EstadoUsuario::Desconectado);
    let marcas_avisos = marcas(disp, m.conexiones, Seq::empty());
    (
        ModeloServidor {
            disponibles: disp,
            estados: modificar_estado(m.estados, u, EstadoUsuario::Desconectado),
            conexiones: m.conexiones.remove(u),
            consecuencias: if m.conexiones.contains_key(u) {
                marcas_avisos.push(ConsecuenciaV::Ignorar)
            } else {
                marcas_avisos
            },
            continuacion: None,
            ..m
        },
        if m.conexiones.contains_key(u) {
            acciones.push(AccionV::Enviar(m.conexiones[u], MensajeUsuarioV::Exito))
        } else {
            acciones
        },
    )
}

/// Paso a disponible luego de una llamada: se le envía el estado de los
/// demás y, si ese envío no falla (o no está conectado), queda disponible.
pub open spec fn paso_disponible(m: ModeloServidor, u: Seq<char>) -> (ModeloServidor, Seq<AccionV>) {
    let est = sin_clave(m.estados, u);
    if m.conexiones.contains_key(u) {
        (
            ModeloServidor {
                estados: est,
                consecuencias: seq![ConsecuenciaV::Rama],
                continuacion: Some(ContinuacionV::ContinuarDisponible(u)),
                ..m
            },
            seq![AccionV::Enviar(m.conexiones[u], MensajeUsuarioV::EstadoUsuarios(est))],
        )
    } else {
        quedar_disponible(ModeloServidor { estados: est, ..m }, u)
    }
}

/// Quien envió la answer y quien la recibe dejan de estar disponibles, pasan
/// a ocupados (si tenían estado) y se avisa a los disponibles.
pub open spec fn continuar_answer(m: ModeloServidor, e: Seq<char>, r: Seq<char>) -> (
    ModeloServidor,
    Seq<AccionV>,
) {
    let disp = sin_usuario(sin_usuario(m.disponibles, e), r);
    (
        ModeloServidor {
            disponibles: disp,
            estados: modificar_estado(
                modificar_estado(m.estados, r, EstadoUsuario::Ocupado),
                e,
                EstadoUsuario::Ocupado,
            ),
            consecuencias: marcas_ocupados(disp, m.conexiones),
            continuacion: None,
            ..m
        },
        avisos_ocupados(disp, m.conexiones, e, r),
    )
}

/// Reenvío de la answer: se envía a su receptor y luego ambos pasan a ocupados.
pub open spec fn paso_answer(m: ModeloServidor, e: Seq<char>, r: Seq<char>, sdp: Seq<char>) -> (
    ModeloServidor,
    Seq<AccionV>,
) {
    if m.conexiones.contains_key(r) {
        (
            ModeloServidor {
                consecuencias: seq![ConsecuenciaV::Desconectar(r)],
                continuacion: Some(ContinuacionV::ContinuarAnswer(e, r)),
                ..m
            },
            seq![AccionV::Enviar(m.conexiones[r], MensajeUsuarioV::EnviarAnswer(sdp))],
        )
    } else {
        continuar_answer(m, e, r)
    }
}

/// Llamada de `a` a `b`: si `b` está disponible se le avisa quién llama; si
/// no (o si `a` se llama a sí mismo), se le informa a `a` que fue rechazada.
pub open spec fn paso_llamar(m: ModeloServidor, a: Seq<char>, b: Seq<char>) -> (
    ModeloServidor,
    Seq<AccionV>,
) {
    if a == b && m.conexiones.contains_key(a) {
        un_envio(m, a, MensajeUsuarioV::LlamadaRechazada)
    } else if m.disponibles.contains(b) && m.conexiones.contains_key(b) {
        un_envio(m, b, MensajeUsuarioV::LlamadaEntrante(a))
    } else {
        un_envio(m, a, MensajeUsuarioV::LlamadaRechazada)
    }
}

/// Efecto de un mensaje recibido por el servidor.
pub open spec fn paso_mensaje(m: ModeloServidor, msg: MensajeServidor) -> (ModeloServidor, Seq<AccionV>) {
    match msg {
        MensajeServidor::Registrar(u, p, c) => paso_registrar(m, u@, p@, c),
        MensajeServidor::Loguear(u, p, c) => paso_loguear(m, u@, p@, c),
        MensajeServidor::Llamar(a, b) => paso_llamar(m, a@, b@),
        MensajeServidor::AceptarLlamada(u) => un_envio(m, u@, MensajeUsuarioV::PedirOffer),
        MensajeServidor::RechazarLlamada(u) => un_envio(m, u@, MensajeUsuarioV::LlamadaRechazada),
        MensajeServidor::EnviarOffer(r, sdp) => un_envio(m, r@, MensajeUsuarioV::PedirAnswer(sdp@)),
        MensajeServidor::EnviarAnswer(e, r, sdp) => paso_answer(m, e@, r@, sdp@),
        MensajeServidor::EstadoDisponible(u) => paso_disponible(m, u@),
        MensajeServidor::Desconectarse(u) => paso_desconectarse(m, u@),
    }
}

/// Lo que queda de un mensaje, según si falló el envío que lo decidía.
pub open spec fn continuar(m: ModeloServidor, c: ContinuacionV, fallo_rama: bool) -> (
    ModeloServidor,
    Seq<AccionV>,
) {
    match c {
        ContinuacionV::NotificarRegistro(u) => (
            ModeloServidor {
                consecuencias: marcas(m.disponibles, m.conexiones, Seq::empty()),
                continuacion: None,
                ..m
            },
            avisos(m.disponibles, m.conexiones, u, EstadoUsuario::Desconectado),
        ),
        ContinuacionV::ContinuarLogin(u) => if fallo_rama {
            (
                ModeloServidor {
                    estados: con_estado(m.estados, u, EstadoUsuario::Desconectado),
                    consecuencias: Seq::empty(),
                    continuacion: None,
                    ..m
                },
                Seq::empty(),
            )
        } else {
            quedar_disponible(m, u)
        },
        ContinuacionV::ContinuarDisponible(u) => if fallo_rama {
            paso_desconectarse(m, u)
        } else {
            quedar_disponible(m, u)
        },
        ContinuacionV::ContinuarAnswer(e, r) => continuar_answer(m, e, r),
    }
}

/// Efecto de informar qué acciones del último lote fallaron. Si falló
/// guardar un usuario, el servidor se detiene con error. Si no, los
/// usuarios a los que no se les pudo enviar se desconectan (un nivel, con
/// sus avisos); cuando no quedan avisos por enviar, sigue lo pendiente del
/// mensaje en curso.
pub open spec fn paso_resultado(m: ModeloServidor, fallidos: Seq<bool>) -> Result<
    (ModeloServidor, Seq<AccionV>),
    ErrorServidorCentral,
> {
    if fallo_con(m.consecuencias, fallidos, ConsecuenciaV::Abortar) {
        Err(ErrorServidorCentral::ErrorPersistiendoUsuario)
    } else {
        let s = a_desconectar(m.consecuencias, fallidos);
        let acciones = avisos_desconexion(m.conexiones, m.disponibles, s);
        let m1 = ModeloServidor {
            conexiones: sin_conexiones(m.conexiones, s),
            estados: con_desconectados(m.estados, s),
            ..m
        };
        if acciones.len() > 0 {
            Ok(
                (
                    ModeloServidor {
                        consecuencias: marcas_desconexion(m.conexiones, m.disponibles, s, s),
                        ..m1
                    },
                    acciones,
                ),
            )
        } else {
            match m.continuacion {
                Some(c) => Ok(
                    continuar(m1, c, fallo_con(m.consecuencias, fallidos, ConsecuenciaV::Rama)),
                ),
                None => Ok(
                    (
                        ModeloServidor { consecuencias: Seq::empty(), continuacion: None, ..m1 },
                        Seq::empty(),
                    ),
                ),
            }
        }
    }
}


/// Usuarios registrados a partir de una lista de pares usuario-contraseña
/// (si un usuario se repite, vale la última contraseña).
pub open spec fn usuarios_desde(l: Seq<(Seq<char>, Seq<char>)>) -> Map<Seq<char>, Seq<char>>
    decreases l.len(),
{
    if l.len() == 0 {
        Map::empty()
    } else {
        usuarios_desde(l.drop_last()).insert(l.last().0, l.last().1)
    }
}

/// Estados iniciales: todos los usuarios de la lista desconectados.
pub open spec fn estados_desde(l: Seq<(Seq<char>, Seq<char>)>) -> Seq<(Seq<char>, EstadoUsuario)>
    decreases l.len(),
{
    if l.len() == 0 {
        Seq::empty()
    } else {
        con_estado(estados_desde(l.drop_last()), l.last().0, EstadoUsuario::Desconectado)
    }
}

/// Texto sin espacios al principio ni al final, y si quedó vacío.
fn recortado(s: &str) -> (r: (String, bool))
    ensures
        r.0@ == recortar(s@),
        r.1 == (recortar(s@).len() == 0),
{
    let v = recortar_caracteres(caracteres(s).as_slice());
    let vacio = v.len() == 0;
    (texto_desde(v.as_slice()), vacio)
}

/// Servidor central de usuarios.
pub struct ServidorCentral {
    limite_usuarios: usize,
    usuarios: StringHashMap<String>,
    estado_usuarios: TablaEstados,
    usuarios_conectados: StringHashMap<u64>,
    usuarios_disponibles: ConjuntoUsuarios,
    consecuencias: Vec<Consecuencia>,
    continuacion: Option<Continuacion>,
}

impl View for ServidorCentral {
    type V = ModeloServidor;

    closed spec fn view(&self) -> ModeloServidor {
        ModeloServidor {
            limite: self.limite_usuarios,
            usuarios: self.usuarios@.map_values(|s: String| s@),
            estados: self.estado_usuarios@,
            conexiones: self.usuarios_conectados@,
            disponibles: self.usuarios_disponibles@,
            consecuencias: vista_consecuencias(self.consecuencias@),
            continuacion: match self.continuacion {
                Some(c) => Some(c@),
                None => None,
            },
        }
    }
}

/// Invariante del modelo: tablas sin repetidos, sólo usuarios registrados
/// conectados, y nunca más conexiones que el límite.
pub open spec fn modelo_valido(m: ModeloServidor) -> bool {
    &&& claves_unicas(m.estados)
    &&& m.disponibles.no_duplicates()
    &&& m.conexiones.dom().finite()
    &&& m.usuarios.dom().finite()
    &&& m.conexiones.len() <= m.limite
    &&& forall|u: Seq<char>| #[trigger] m.conexiones.contains_key(u) ==> m.usuarios.contains_key(u)
}

impl ServidorCentral {
    /// El servidor cumple su invariante.
    pub open spec fn bien_formado(&self) -> bool {
        &&& modelo_valido(self@)
        &&& self.tablas_validas()
    }

    /// Las tablas internas están bien formadas y la de usuarios es finita.
    pub closed spec fn tablas_validas(&self) -> bool {
        &&& self.estado_usuarios.bien_formada()
        &&& self.usuarios_disponibles.bien_formado()
        &&& self.usuarios@.dom().finite()
    }

    /// El servidor no tiene ningún mensaje a medio procesar.
    pub open spec fn en_reposo(&self) -> bool {
        self@.consecuencias.len() == 0 && self@.continuacion is None
    }

    /// Crea el servidor con el límite de conexiones y los usuarios ya
    /// registrados, todos desconectados.
    pub fn crear(limite_usuarios: usize, registrados: Vec<(String, String)>) -> (r: Self)
        ensures
            r.bien_formado(),
            r.en_reposo(),
            r@.limite == limite_usuarios,
            r@.usuarios == usuarios_desde(vista_pares(registrados@)),
            r@.estados == estados_desde(vista_pares(registrados@)),
            r@.conexiones == Map::<Seq<char>, u64>::empty(),
            r@.disponibles == Seq::<Seq<char>>::empty(),
    {
        let mut usuarios: StringHashMap<String> = StringHashMap::new();
        let mut estados = TablaEstados::new();
        let mut i: usize = 0;
        let ghost l = vista_pares(registrados@);
        assert(l.take(0) =~= Seq::<(Seq<char>, Seq<char>)>::empty());
        assert(usuarios@.map_values(|s: String| s@) =~= usuarios_desde(l.take(0)));
        while i < registrados.len()
            invariant
                i <= registrados@.len(),
                l == vista_pares(registrados@),
                usuarios@.map_values(|s: String| s@) == usuarios_desde(l.take(i as int)),
                usuarios@.dom().finite(),
                estados@ == estados_desde(l.take(i as int)),
                estados.bien_formada(),
            decreases registrados@.len() - i,
        {
            let par = &registrados[i];
            assert(l.take(i + 1).drop_last() =~= l.take(i as int));
            assert(l[i as int] == (par.0@, par.1@));
            proof {
                lema_con_estado(estados@, par.0@, EstadoUsuario::Desconectado);
            }
            let ghost anterior = usuarios@;
            usuarios.insert(par.0.clone(), par.1.clone());
            assert(usuarios@.map_values(|s: String| s@) =~= anterior.map_values(|s: String| s@).insert(
                par.0@,
                par.1@,
            ));
            estados.insertar(par.0.clone(), EstadoUsuario::Desconectado);
            i = i + 1;
        }
        assert(l.take(i as int) =~= l);
        let r = ServidorCentral {
            limite_usuarios,
            usuarios,
            estado_usuarios: estados,
            usuarios_conectados: StringHashMap::new(),
            usuarios_disponibles: ConjuntoUsuarios::new(),
            consecuencias: Vec::new(),
            continuacion: None,
        };
        assert(vista_consecuencias(r.consecuencias@) =~= Seq::<ConsecuenciaV>::empty());
        assert(r@.conexiones.dom() =~= Set::<Seq<char>>::empty());
        assert(r@.usuarios.dom() =~= usuarios@.dom());
        r
    }

    /// Contraseña del usuario, si está registrado.
    pub fn contrasenia_de(&self, usuario: &str) -> (r: Option<String>)
        ensures
            match r {
                Some(p) => self@.usuarios.contains_key(usuario@) && self@.usuarios[usuario@] == p@,
                None => !self@.usuarios.contains_key(usuario@),
            },
    {
        match self.usuarios.get(usuario) {
            Some(p) => Some(p.clone()),
            None => None,
        }
    }

    /// Estado del usuario, si el servidor lo conoce.
    pub fn estado_de_usuario(&self, usuario: &String) -> (r: Option<EstadoUsuario>)
        requires
            self.bien_formado(),
        ensures
            match r {
                Some(e) => tiene_clave(self@.estados, usuario@) && e == estado_de(
                    self@.estados,
                    usuario@,
                ),
                None => !tiene_clave(self@.estados, usuario@),
            },
    {
        self.estado_usuarios.estado(usuario)
    }

    /// Cantidad de usuarios registrados.
    pub fn cantidad_registrados(&self) -> (r: usize)
        ensures
            r == self@.usuarios.len(),
    {
        assert(self@.usuarios.dom() =~= self.usuarios@.dom());
        self.usuarios.len()
    }

    /// Cantidad de usuarios con estado conocido.
    pub fn cantidad_estados(&self) -> (r: usize)
        ensures
            r == self@.estados.len(),
    {
        self.estado_usuarios.cantidad()
    }

    /// Cantidad de usuarios conectados.
    pub fn cantidad_conectados(&self) -> (r: usize)
        ensures
            r == self@.conexiones.len(),
    {
        self.usuarios_conectados.len()
    }

    /// Cantidad de usuarios disponibles.
    pub fn cantidad_disponibles(&self) -> (r: usize)
        ensures
            r == self@.disponibles.len(),
    {
        self.usuarios_disponibles.elementos().len()
    }

    /// Agrega a `acciones` los avisos a los disponibles de que `quien` pasó a
    /// `estado`, y a `cons` sus consecuencias.
    fn avisar(
        &self,
        quien: &String,
        estado: EstadoUsuario,
        excluidos: &ConjuntoUsuarios,
        acciones: &mut Vec<Accion>,
        cons: &mut Vec<Consecuencia>,
    )
        requires
            self.usuarios_disponibles.bien_formado(),
            excluidos.bien_formado(),
        ensures
            vista_acciones(final(acciones)@) == vista_acciones(old(acciones)@) + avisos(
                self@.disponibles,
                self@.conexiones,
                quien@,
                estado,
            ),
            vista_consecuencias(final(cons)@) == vista_consecuencias(old(cons)@) + marcas(
                self@.disponibles,
                self@.conexiones,
                excluidos@,
            ),
    {
        let elems = self.usuarios_disponibles.elementos();
        let ghost disp = self@.disponibles;
        let ghost con = self@.conexiones;
        let mut i: usize = 0;
        assert(disp.take(0) =~= Seq::<Seq<char>>::empty());
        assert(vista_acciones(acciones@) =~= vista_acciones(old(acciones)@) + avisos(
            disp.take(0),
            con,
            quien@,
            estado,
        ));
        assert(vista_consecuencias(cons@) =~= vista_consecuencias(old(cons)@) + marcas(
            disp.take(0),
            con,
            excluidos@,
        ));
        while i < elems.len()
            invariant
                i <= elems@.len(),
                elems@.map_values(|s: String| s@) == disp,
                disp == self@.disponibles,
                con == self@.conexiones,
                excluidos.bien_formado(),
                vista_acciones(acciones@) == vista_acciones(old(acciones)@) + avisos(
                    disp.take(i as int),
                    con,
                    quien@,
                    estado,
                ),
                vista_consecuencias(cons@) == vista_consecuencias(old(cons)@) + marcas(
                    disp.take(i as int),
                    con,
                    excluidos@,
                ),
            decreases elems@.len() - i,
        {
            let d = &elems[i];
            assert(disp.take(i + 1).drop_last() =~= disp.take(i as int));
            assert(disp.take(i + 1).last() == d@);
            match self.usuarios_conectados.get(d.as_str()) {
                Some(c) => {
                    let ghost a0 = vista_acciones(acciones@);
                    let ghost c0 = vista_consecuencias(cons@);
                    acciones.push(
                        Accion::Enviar(*c, MensajeUsuario::ActualizarEstadoUsuario(quien.clone(), estado)),
                    );
                    assert(vista_acciones(acciones@) =~= a0.push(
                        AccionV::Enviar(
                            con[d@],
                            MensajeUsuarioV::ActualizarEstadoUsuario(quien@, estado),
                        ),
                    ));
                    if excluidos.contiene(d) {
                        cons.push(Consecuencia::Ignorar);
                        assert(vista_consecuencias(cons@) =~= c0.push(ConsecuenciaV::Ignorar));
                    } else {
                        cons.push(Consecuencia::Desconectar(d.clone()));
                        assert(vista_consecuencias(cons@) =~= c0.push(ConsecuenciaV::Desconectar(d@)));
                    }
                },
                None => {},
            }
            i = i + 1;
        }
        assert(disp.take(i as int) =~= disp);
    }

    /// Agrega a `acciones` los avisos a los disponibles de que `emisor` y
    /// `receptor` están ocupados, y a `cons` sus consecuencias.
    fn avisar_ocupados(
        &self,
        emisor: &String,
        receptor: &String,
        acciones: &mut Vec<Accion>,
        cons: &mut Vec<Consecuencia>,
    )
        ensures
            vista_acciones(final(acciones)@) == vista_acciones(old(acciones)@) + avisos_ocupados(
                self@.disponibles,
                self@.conexiones,
                emisor@,
                receptor@,
            ),
            vista_consecuencias(final(cons)@) == vista_consecuencias(old(cons)@) + marcas_ocupados(
                self@.disponibles,
                self@.conexiones,
            ),
    {
        let elems = self.usuarios_disponibles.elementos();
        let ghost disp = self@.disponibles;
        let ghost con = self@.conexiones;
        let mut i: usize = 0;
        assert(disp.take(0) =~= Seq::<Seq<char>>::empty());
        assert(vista_acciones(acciones@) =~= vista_acciones(old(acciones)@) + avisos_ocupados(
            disp.take(0),
            con,
            emisor@,
            receptor@,
        ));
        assert(vista_consecuencias(cons@) =~= vista_consecuencias(old(cons)@) + marcas_ocupados(
            disp.take(0),
            con,
        ));
        while i < elems.len()
            invariant
                i <= elems@.len(),
                elems@.map_values(|s: String| s@) == disp,
                disp == self@.disponibles,
                con == self@.conexiones,
                vista_acciones(acciones@) == vista_acciones(old(acciones)@) + avisos_ocupados(
                    disp.take(i as int),
                    con,
                    emisor@,
                    receptor@,
                ),
                vista_consecuencias(cons@) == vista_consecuencias(old(cons)@) + marcas_ocupados(
                    disp.take(i as int),
                    con,
                ),
            decreases elems@.len() - i,
        {
            let d = &elems[i];
            assert(disp.take(i + 1).drop_last() =~= disp.take(i as int));
            assert(disp.take(i + 1).last() == d@);
            match self.usuarios_conectados.get(d.as_str()) {
                Some(c) => {
                    let ghost a0 = vista_acciones(acciones@);
                    let ghost c0 = vista_consecuencias(cons@);
                    acciones.push(
                        Accion::Enviar(
                            *c,
                            MensajeUsuario::ActualizarEstadoUsuario(
                                emisor.clone(),
                                EstadoUsuario::Ocupado,
                            ),
                        ),
                    );
                    acciones.push(
                        Accion::Enviar(
                            *c,
                            MensajeUsuario::ActualizarEstadoUsuario(
                                receptor.clone(),
                                EstadoUsuario::Ocupado,
                            ),
                        ),
                    );
                    assert(vista_acciones(acciones@) =~= a0.push(
                        AccionV::Enviar(
                            con[d@],
                            MensajeUsuarioV::ActualizarEstadoUsuario(emisor@, EstadoUsuario::Ocupado),
                        ),
                    ).push(
                        AccionV::Enviar(
                            con[d@],
                            MensajeUsuarioV::ActualizarEstadoUsuario(
                                receptor@,
                                EstadoUsuario::Ocupado,
                            ),
                        ),
                    ));
                    cons.push(Consecuencia::Desconectar(d.clone()));
                    cons.push(Consecuencia::Ignorar);
                    assert(vista_consecuencias(cons@) =~= c0.push(ConsecuenciaV::Desconectar(d@)).push(
                        ConsecuenciaV::Ignorar,
                    ));
                },
                None => {},
            }
            i = i + 1;
        }
        assert(disp.take(i as int) =~= disp);
    }

    /// Un nivel de desconexiones: cada usuario de `s`, en orden, pierde su
    /// conexión, pasa a desconectado y se avisa a los disponibles.
    fn desconectar_nivel(&mut self, s: &ConjuntoUsuarios) -> (r: (Vec<Accion>, Vec<Consecuencia>))
        requires
            old(self).bien_formado(),
            s.bien_formado(),
        ensures
            final(self).bien_formado(),
            final(self)@ == (ModeloServidor {
                conexiones: sin_conexiones(old(self)@.conexiones, s@),
                estados: con_desconectados(old(self)@.estados, s@),
                ..old(self)@
            }),
            vista_acciones(r.0@) == avisos_desconexion(
                old(self)@.conexiones,
                old(self)@.disponibles,
                s@,
            ),
            vista_consecuencias(r.1@) == marcas_desconexion(
                old(self)@.conexiones,
                old(self)@.disponibles,
                s@,
                s@,
            ),
    {
        let elems = s.elementos();
        let ghost us = s@;
        let ghost con0 = old(self)@.conexiones;
        let ghost m0 = old(self)@;
        let mut acciones: Vec<Accion> = Vec::new();
        let mut cons: Vec<Consecuencia> = Vec::new();
        let mut i: usize = 0;
        assert(us.take(0) =~= Seq::<Seq<char>>::empty());
        while i < elems.len()
            invariant
                i <= elems@.len(),
                elems@.map_values(|x: String| x@) == us,
                us == s@,
                s.bien_formado(),
                con0 == m0.conexiones,
                self.bien_formado(),
                self@ == (ModeloServidor {
                    conexiones: sin_conexiones(con0, us.take(i as int)),
                    estados: con_desconectados(m0.estados, us.take(i as int)),
                    ..m0
                }),
                vista_acciones(acciones@) == avisos_desconexion(con0, m0.disponibles, us.take(i as int)),
                vista_consecuencias(cons@) == marcas_desconexion(
                    con0,
                    m0.disponibles,
                    us.take(i as int),
                    us,
                ),
            decreases elems@.len() - i,
        {
            let u = &elems[i];
            assert(us.take(i + 1).drop_last() =~= us.take(i as int));
            assert(us.take(i + 1).last() == u@);
            proof {
                lema_con_estado(self@.estados, u@, EstadoUsuario::Desconectado);
            }
            let ghost antes = self@;
            self.usuarios_conectados.remove(u.as_str());
            self.estado_usuarios.insertar(u.clone(), EstadoUsuario::Desconectado);
            proof {
                assert(self@.conexiones.dom() =~= antes.conexiones.dom().remove(u@));
                if antes.conexiones.contains_key(u@) {
                    assert(self@.conexiones.len() == antes.conexiones.len() - 1);
                } else {
                    assert(self@.conexiones.dom() =~= antes.conexiones.dom());
                }
            }
            let ghost a0 = vista_acciones(acciones@);
            let ghost c0 = vista_consecuencias(cons@);
            self.avisar(u, EstadoUsuario::Desconectado, s, &mut acciones, &mut cons);
            i = i + 1;
        }
        assert(us.take(i as int) =~= us);
        (acciones, cons)
    }
}

impl ServidorCentral {
    fn fijar_pendiente(&mut self, cons: Vec<Consecuencia>, continuacion: Option<Continuacion>)
        ensures
            final(self)@ == (ModeloServidor {
                consecuencias: vista_consecuencias(cons@),
                continuacion: match continuacion {
                    Some(c) => Some(c@),
                    None => None,
                },
                ..old(self)@
            }),
            final(self).tablas_validas() == old(self).tablas_validas(),
    {
        self.consecuencias = cons;
        self.continuacion = continuacion;
        assert(self@ =~= (ModeloServidor {
            consecuencias: vista_consecuencias(cons@),
            continuacion: match continuacion {
                Some(c) => Some(c@),
                None => None,
            },
            ..old(self)@
        }));
    }

    fn responder_error(&mut self, con: u64, texto: String) -> (r: Vec<Accion>)
        requires
            old(self).bien_formado(),
        ensures
            final(self).bien_formado(),
            final(self)@ == responder_error(old(self)@, con, texto@).0,
            vista_acciones(r@) == responder_error(old(self)@, con, texto@).1,
    {
        let cons = vec![Consecuencia::Ignorar];
        assert(vista_consecuencias(cons@) =~= seq![ConsecuenciaV::Ignorar]);
        self.fijar_pendiente(cons, None);
        let ghost tv = texto@;
        let r = vec![Accion::Enviar(con, MensajeUsuario::Error(texto))];
        assert(vista_acciones(r@) =~= seq![AccionV::Enviar(con, MensajeUsuarioV::Error(tv))]);
        r
    }

    fn enviar_a(&mut self, destino: &String, msg: MensajeUsuario) -> (r: Vec<Accion>)
        requires
            old(self).bien_formado(),
        ensures
            final(self).bien_formado(),
            final(self)@ == un_envio(old(self)@, destino@, msg@).0,
            vista_acciones(r@) == un_envio(old(self)@, destino@, msg@).1,
    {
        match self.usuarios_conectados.get(destino.as_str()) {
            Some(c) => {
                let c = *c;
                let cons = vec![Consecuencia::Desconectar(destino.clone())];
                assert(vista_consecuencias(cons@) =~= seq![ConsecuenciaV::Desconectar(destino@)]);
                self.fijar_pendiente(cons, None);
                let ghost mv = msg@;
                let r = vec![Accion::Enviar(c, msg)];
                assert(vista_acciones(r@) =~= seq![AccionV::Enviar(c, mv)]);
                r
            },
            None => {
                let cons: Vec<Consecuencia> = Vec::new();
                assert(vista_consecuencias(cons@) =~= Seq::<ConsecuenciaV>::empty());
                self.fijar_pendiente(cons, None);
                let r: Vec<Accion> = Vec::new();
                assert(vista_acciones(r@) =~= Seq::<AccionV>::empty());
                r
            },
        }
    }

    fn registrar_usuario(&mut self, usuario: String, contrasenia: String, con: u64) -> (r: Vec<
        Accion,
    >)
        requires
            old(self).bien_formado(),
        ensures
            final(self).bien_formado(),
            final(self)@ == paso_registrar(old(self)@, usuario@, contrasenia@, con).0,
            vista_acciones(r@) == paso_registrar(old(self)@, usuario@, contrasenia@, con).1,
    {
        let (u, u_vacio) = recortado(usuario.as_str());
        if u_vacio {
            return self.responder_error(con, "Usuario invalido".to_owned());
        }
        if self.usuarios.contains_key(u.as_str()) {
            return self.responder_error(con, "Nombre usuario no disponible".to_owned());
        }
        let (p, p_vacio) = recortado(contrasenia.as_str());
        if p_vacio {
            return self.responder_error(con, "Contraseña invalida".to_owned());
        }
        proof {
            lema_con_estado(self@.estados, u@, EstadoUsuario::Desconectado);
        }
        let ghost antes = self.usuarios@;
        self.usuarios.insert(u.clone(), p.clone());
        assert(self.usuarios@.map_values(|s: String| s@) =~= antes.map_values(|s: String| s@).insert(
            u@,
            p@,
        ));
        self.estado_usuarios.insertar(u.clone(), EstadoUsuario::Desconectado);
        let cons = vec![Consecuencia::Ignorar, Consecuencia::Abortar];
        assert(vista_consecuencias(cons@) =~= seq![ConsecuenciaV::Ignorar, ConsecuenciaV::Abortar]);
        self.fijar_pendiente(cons, Some(Continuacion::NotificarRegistro(u.clone())));
        let ghost uv = u@;
        let ghost pv = p@;
        let r = vec![Accion::Enviar(con, MensajeUsuario::Exito), Accion::Persistir(u, p)];
        assert(vista_acciones(r@) =~= seq![
            AccionV::Enviar(con, MensajeUsuarioV::Exito),
            AccionV::Persistir(uv, pv),
        ]);
        r
    }

    fn loguear_usuario(&mut self, usuario: String, contrasenia: String, con: u64) -> (r: Vec<Accion>)
        requires
            old(self).bien_formado(),
        ensures
            final(self).bien_formado(),
            final(self)@ == paso_loguear(old(self)@, usuario@, contrasenia@, con).0,
            vista_acciones(r@) == paso_loguear(old(self)@, usuario@, contrasenia@, con).1,
    {
        let (u, _) = recortado(usuario.as_str());
        let correcta = match self.usuarios.get(u.as_str()) {
            Some(pw) => Some(*pw == contrasenia),
            None => None,
        };
        match correcta {
            None => {
                return self.responder_error(con, "Nombre usuario inexistente".to_owned());
            },
            Some(false) => {
                return self.responder_error(con, "Contraseña incorrecta".to_owned());
            },
            Some(true) => {},
        }
        if self.usuarios_conectados.contains_key(u.as_str()) {
            return self.responder_error(con, "Usuario ya logueado".to_owned());
        }
        if self.limite_usuarios <= self.usuarios_conectados.len() {
            return self.responder_error(con, "No hay lugar para una nueva conexion".to_owned());
        }
        proof {
            lema_sin_clave(self@.estados, u@);
        }
        let ghost antes = self@;
        self.usuarios_conectados.insert(u.clone(), con);
        proof {
            assert(self@.conexiones.dom() =~= antes.conexiones.dom().insert(u@));
        }
        self.estado_usuarios.quitar(&u);
        let copia = self.estado_usuarios.copia();
        let cons = vec![Consecuencia::Ignorar, Consecuencia::Rama];
        assert(vista_consecuencias(cons@) =~= seq![ConsecuenciaV::Ignorar, ConsecuenciaV::Rama]);
        self.fijar_pendiente(cons, Some(Continuacion::ContinuarLogin(u)));
        let ghost est = self@.estados;
        let r = vec![
            Accion::Enviar(con, MensajeUsuario::Exito),
            Accion::Enviar(con, MensajeUsuario::EstadoUsuarios(copia)),
        ];
        assert(vista_acciones(r@) =~= seq![
            AccionV::Enviar(con, MensajeUsuarioV::Exito),
            AccionV::Enviar(con, MensajeUsuarioV::EstadoUsuarios(est)),
        ]);
        r
    }

    fn quedar_disponible(&mut self, u: String) -> (r: Vec<Accion>)
        requires
            old(self).bien_formado(),
        ensures
            final(self).bien_formado(),
            final(self)@ == quedar_disponible(old(self)@, u@).0,
            vista_acciones(r@) == quedar_disponible(old(self)@, u@).1,
    {
        let mut acciones: Vec<Accion> = Vec::new();
        let mut cons: Vec<Consecuencia> = Vec::new();
        let vacio = ConjuntoUsuarios::new();
        assert(vista_acciones(acciones@) =~= Seq::<AccionV>::empty());
        assert(vista_consecuencias(cons@) =~= Seq::<ConsecuenciaV>::empty());
        self.avisar(&u, EstadoUsuario::Disponible, &vacio, &mut acciones, &mut cons);
        assert(vista_acciones(acciones@) =~= avisos(
            old(self)@.disponibles,
            old(self)@.conexiones,
            u@,
            EstadoUsuario::Disponible,
        ));
        assert(vista_consecuencias(cons@) =~= marcas(
            old(self)@.disponibles,
            old(self)@.conexiones,
            Seq::empty(),
        ));
        proof {
            lema_con_estado(self@.estados, u@, EstadoUsuario::Disponible);
        }
        self.estado_usuarios.insertar(u.clone(), EstadoUsuario::Disponible);
        self.usuarios_disponibles.insertar(u);
        self.fijar_pendiente(cons, None);
        acciones
    }

    fn desconectarse(&mut self, u: String) -> (r: Vec<Accion>)
        requires
            old(self).bien_formado(),
        ensures
            final(self).bien_formado(),
            final(self)@ == paso_desconectarse(old(self)@, u@).0,
            vista_acciones(r@) == paso_desconectarse(old(self)@, u@).1,
    {
        self.usuarios_disponibles.quitar(&u);
        proof {
            lema_modificar_estado(self@.estados, u@, EstadoUsuario::Desconectado);
        }
        self.estado_usuarios.modificar_si_existe(&u, EstadoUsuario::Desconectado);
        let mut acciones: Vec<Accion> = Vec::new();
        let mut cons: Vec<Consecuencia> = Vec::new();
        let vacio = ConjuntoUsuarios::new();
        assert(vista_acciones(acciones@) =~= Seq::<AccionV>::empty());
        assert(vista_consecuencias(cons@) =~= Seq::<ConsecuenciaV>::empty());
        self.avisar(&u, EstadoUsuario::Desconectado, &vacio, &mut acciones, &mut cons);
        let ghost a0 = vista_acciones(acciones@);
        let ghost c0 = vista_consecuencias(cons@);
        match self.usuarios_conectados.get(u.as_str()) {
            Some(c) => {
                acciones.push(Accion::Enviar(*c, MensajeUsuario::Exito));
                cons.push(Consecuencia::Ignorar);
                assert(vista_acciones(acciones@) =~= a0.push(
                    AccionV::Enviar(old(self)@.conexiones[u@], MensajeUsuarioV::Exito),
                ));
                assert(vista_consecuencias(cons@) =~= c0.push(ConsecuenciaV::Ignorar));
            },
            None => {},
        }
        let ghost antes = self@;
        self.usuarios_conectados.remove(u.as_str());
        proof {
            assert(self@.conexiones.dom() =~= antes.conexiones.dom().remove(u@));
            if !antes.conexiones.contains_key(u@) {
                assert(self@.conexiones.dom() =~= antes.conexiones.dom());
            }
        }
        self.fijar_pendiente(cons, None);
        acciones
    }

    fn estado_disponible(&mut self, u: String) -> (r: Vec<Accion>)
        requires
            old(self).bien_formado(),
        ensures
            final(self).bien_formado(),
            final(self)@ == paso_disponible(old(self)@, u@).0,
            vista_acciones(r@) == paso_disponible(old(self)@, u@).1,
    {
        proof {
            lema_sin_clave(self@.estados, u@);
        }
        self.estado_usuarios.quitar(&u);
        match self.usuarios_conectados.get(u.as_str()) {
            Some(c) => {
                let c = *c;
                let copia = self.estado_usuarios.copia();
                let cons = vec![Consecuencia::Rama];
                assert(vista_consecuencias(cons@) =~= seq![ConsecuenciaV::Rama]);
                self.fijar_pendiente(cons, Some(Continuacion::ContinuarDisponible(u)));
                let ghost est = self@.estados;
                let r = vec![Accion::Enviar(c, MensajeUsuario::EstadoUsuarios(copia))];
                assert(vista_acciones(r@) =~= seq![
                    AccionV::Enviar(c, MensajeUsuarioV::EstadoUsuarios(est)),
                ]);
                r
            },
            None => self.quedar_disponible(u),
        }
    }

    fn continuar_answer(&mut self, e: String, r: String) -> (res: Vec<Accion>)
        requires
            old(self).bien_formado(),
        ensures
            final(self).bien_formado(),
            final(self)@ == continuar_answer(old(self)@, e@, r@).0,
            vista_acciones(res@) == continuar_answer(old(self)@, e@, r@).1,
    {
        self.usuarios_disponibles.quitar(&e);
        self.usuarios_disponibles.quitar(&r);
        proof {
            lema_modificar_estado(self@.estados, r@, EstadoUsuario::Ocupado);
        }
        self.estado_usuarios.modificar_si_existe(&r, EstadoUsuario::Ocupado);
        proof {
            lema_modificar_estado(self@.estados, e@, EstadoUsuario::Ocupado);
        }
        self.estado_usuarios.modificar_si_existe(&e, EstadoUsuario::Ocupado);
        let mut acciones: Vec<Accion> = Vec::new();
        let mut cons: Vec<Consecuencia> = Vec::new();
        assert(vista_acciones(acciones@) =~= Seq::<AccionV>::empty());
        assert(vista_consecuencias(cons@) =~= Seq::<ConsecuenciaV>::empty());
        self.avisar_ocupados(&e, &r, &mut acciones, &mut cons);
        self.fijar_pendiente(cons, None);
        acciones
    }

    fn enviar_answer(&mut self, e: String, r: String, sdp: String) -> (res: Vec<Accion>)
        requires
            old(self).bien_formado(),
        ensures
            final(self).bien_formado(),
            final(self)@ == paso_answer(old(self)@, e@, r@, sdp@).0,
            vista_acciones(res@) == paso_answer(old(self)@, e@, r@, sdp@).1,
    {
        match self.usuarios_conectados.get(r.as_str()) {
            Some(c) => {
                let c = *c;
                let cons = vec![Consecuencia::Desconectar(r.clone())];
                assert(vista_consecuencias(cons@) =~= seq![ConsecuenciaV::Desconectar(r@)]);
                self.fijar_pendiente(cons, Some(Continuacion::ContinuarAnswer(e, r)));
                let ghost sv = sdp@;
                let res = vec![Accion::Enviar(c, MensajeUsuario::EnviarAnswer(sdp))];
                assert(vista_acciones(res@) =~= seq![
                    AccionV::Enviar(c, MensajeUsuarioV::EnviarAnswer(sv)),
                ]);
                res
            },
            None => self.continuar_answer(e, r),
        }
    }

    fn usuario_llama_otro(&mut self, a: String, b: String) -> (r: Vec<Accion>)
        requires
            old(self).bien_formado(),
        ensures
            final(self).bien_formado(),
            final(self)@ == paso_llamar(old(self)@, a@, b@).0,
            vista_acciones(r@) == paso_llamar(old(self)@, a@, b@).1,
    {
        if a == b && self.usuarios_conectados.contains_key(a.as_str()) {
            return self.enviar_a(&a, MensajeUsuario::LlamadaRechazada);
        }
        if self.usuarios_disponibles.contiene(&b) && self.usuarios_conectados.contains_key(
            b.as_str(),
        ) {
            return self.enviar_a(&b, MensajeUsuario::LlamadaEntrante(a));
        }
        self.enviar_a(&a, MensajeUsuario::LlamadaRechazada)
    }

    fn continuar(&mut self, c: Continuacion, fallo_rama: bool) -> (r: Vec<Accion>)
        requires
            old(self).bien_formado(),
        ensures
            final(self).bien_formado(),
            final(self)@ == continuar(old(self)@, c@, fallo_rama).0,
            vista_acciones(r@) == continuar(old(self)@, c@, fallo_rama).1,
    {
        match c {
            Continuacion::NotificarRegistro(u) => {
                let mut acciones: Vec<Accion> = Vec::new();
                let mut cons: Vec<Consecuencia> = Vec::new();
                let vacio = ConjuntoUsuarios::new();
                assert(vista_acciones(acciones@) =~= Seq::<AccionV>::empty());
                assert(vista_consecuencias(cons@) =~= Seq::<ConsecuenciaV>::empty());
                self.avisar(&u, EstadoUsuario::Desconectado, &vacio, &mut acciones, &mut cons);
                assert(vista_acciones(acciones@) =~= avisos(
                    old(self)@.disponibles,
                    old(self)@.conexiones,
                    u@,
                    EstadoUsuario::Desconectado,
                ));
                assert(vista_consecuencias(cons@) =~= marcas(
                    old(self)@.disponibles,
                    old(self)@.conexiones,
                    Seq::empty(),
                ));
                self.fijar_pendiente(cons, None);
                acciones
            },
            Continuacion::ContinuarLogin(u) => {
                if fallo_rama {
                    proof {
                        lema_con_estado(self@.estados, u@, EstadoUsuario::Desconectado);
                    }
                    self.estado_usuarios.insertar(u, EstadoUsuario::Desconectado);
                    let cons: Vec<Consecuencia> = Vec::new();
                    assert(vista_consecuencias(cons@) =~= Seq::<ConsecuenciaV>::empty());
                    self.fijar_pendiente(cons, None);
                    let r: Vec<Accion> = Vec::new();
                    assert(vista_acciones(r@) =~= Seq::<AccionV>::empty());
                    r
                } else {
                    self.quedar_disponible(u)
                }
            },
            Continuacion::ContinuarDisponible(u) => {
                if fallo_rama {
                    self.desconectarse(u)
                } else {
                    self.quedar_disponible(u)
                }
            },
            Continuacion::ContinuarAnswer(e, r) => self.continuar_answer(e, r),
        }
    }
}

impl ServidorCentral {
    /// Procesa un mensaje recibido y devuelve el primer lote de acciones a
    /// ejecutar. Luego de ejecutarlas (si hubo alguna) hay que informar cuáles
    /// fallaron con [`ServidorCentral::resultado_envios`], hasta que el lote
    /// devuelto quede vacío.
    pub fn procesar_mensaje(&mut self, mensaje: MensajeServidor) -> (r: Vec<Accion>)
        requires
            old(self).bien_formado(),
        ensures
            final(self).bien_formado(),
            final(self)@ == paso_mensaje(old(self)@, mensaje).0,
            vista_acciones(r@) == paso_mensaje(old(self)@, mensaje).1,
    {
        match mensaje {
            MensajeServidor::Registrar(u, p, c) => self.registrar_usuario(u, p, c),
            MensajeServidor::Loguear(u, p, c) => self.loguear_usuario(u, p, c),
            MensajeServidor::Llamar(a, b) => self.usuario_llama_otro(a, b),
            MensajeServidor::AceptarLlamada(u) => self.enviar_a(&u, MensajeUsuario::PedirOffer),
            MensajeServidor::RechazarLlamada(u) => self.enviar_a(
                &u,
                MensajeUsuario::LlamadaRechazada,
            ),
            MensajeServidor::EnviarOffer(r, sdp) => self.enviar_a(
                &r,
                MensajeUsuario::PedirAnswer(sdp),
            ),
            MensajeServidor::EnviarAnswer(e, r, sdp) => self.enviar_answer(e, r, sdp),
            MensajeServidor::EstadoDisponible(u) => self.estado_disponible(u),
            MensajeServidor::Desconectarse(u) => self.desconectarse(u),
        }
    }

    /// Informa qué acciones del último lote fallaron (`fallidos[i]` es el
    /// resultado de la acción `i`) y devuelve el lote siguiente; vacío si el
    /// mensaje en curso terminó. Si falló guardar un usuario nuevo devuelve
    /// `ErrorPersistiendoUsuario` y el servidor debe detenerse.
    pub fn resultado_envios(&mut self, fallidos: &Vec<bool>) -> (r: Result<
        Vec<Accion>,
        ErrorServidorCentral,
    >)
        requires
            old(self).bien_formado(),
            fallidos@.len() == old(self)@.consecuencias.len(),
        ensures
            final(self).bien_formado(),
            match (r, paso_resultado(old(self)@, fallidos@)) {
                (Ok(acciones), Ok(p)) => final(self)@ == p.0 && vista_acciones(acciones@) == p.1,
                (Err(e), Err(f)) => e == f && final(self)@ == (ModeloServidor {
                    consecuencias: Seq::empty(),
                    continuacion: None,
                    ..old(self)@
                }),
                _ => false,
            },
    {
        if fallo_en(&self.consecuencias, fallidos, false) {
            let cons: Vec<Consecuencia> = Vec::new();
            assert(vista_consecuencias(cons@) =~= Seq::<ConsecuenciaV>::empty());
            self.fijar_pendiente(cons, None);
            return Err(ErrorServidorCentral::ErrorPersistiendoUsuario);
        }
        let fallo_rama = fallo_en(&self.consecuencias, fallidos, true);
        let s = usuarios_a_desconectar(&self.consecuencias, fallidos);
        let (acciones, cons) = self.desconectar_nivel(&s);
        if acciones.len() > 0 {
            let ghost antes = self@;
            self.consecuencias = cons;
            assert(self@ =~= (ModeloServidor { consecuencias: vista_consecuencias(cons@), ..antes }));
            return Ok(acciones);
        }
        let pendiente = self.continuacion.take();
        match pendiente {
            Some(c) => Ok(self.continuar(c, fallo_rama)),
            None => {
                let vacias: Vec<Consecuencia> = Vec::new();
                assert(vista_consecuencias(vacias@) =~= Seq::<ConsecuenciaV>::empty());
                self.fijar_pendiente(vacias, None);
                let r: Vec<Accion> = Vec::new();
                assert(vista_acciones(r@) =~= Seq::<AccionV>::empty());
                Ok(r)
            },
        }
    }
}

/// Usuarios a desconectar según qué acciones del último lote fallaron.
fn usuarios_a_desconectar(cons: &Vec<Consecuencia>, fallidos: &Vec<bool>) -> (r: ConjuntoUsuarios)
    requires
        cons@.len() == fallidos@.len(),
    ensures
        r.bien_formado(),
        r@ == a_desconectar(vista_consecuencias(cons@), fallidos@),
{
    let mut r = ConjuntoUsuarios::new();
    let ghost c = vista_consecuencias(cons@);
    let mut i: usize = 0;
    assert(c.take(0) =~= Seq::<ConsecuenciaV>::empty());
    while i < cons.len()
        invariant
            i <= cons@.len(),
            cons@.len() == fallidos@.len(),
            c == vista_consecuencias(cons@),
            r.bien_formado(),
            r@ == a_desconectar(c.take(i as int), fallidos@.take(i as int)),
        decreases cons@.len() - i,
    {
        assert(c.take(i + 1).drop_last() =~= c.take(i as int));
        assert(fallidos@.take(i + 1).drop_last() =~= fallidos@.take(i as int));
        assert(c.take(i + 1).last() == cons@[i as int]@);
        assert(fallidos@.take(i + 1).last() == fallidos@[i as int]);
        if fallidos[i] {
            match &cons[i] {
                Consecuencia::Desconectar(u) => {
                    r.insertar(u.clone());
                },
                _ => {},
            }
        }
        i = i + 1;
    }
    assert(c.take(i as int) =~= c);
    assert(fallidos@.take(i as int) =~= fallidos@);
    r
}

/// Indica si falló alguna acción que debía abortar (`rama == false`) o que
/// decidía la continuación (`rama == true`).
fn fallo_en(cons: &Vec<Consecuencia>, fallidos: &Vec<bool>, rama: bool) -> (r: bool)
    requires
        cons@.len() == fallidos@.len(),
    ensures
        r == fallo_con(
            vista_consecuencias(cons@),
            fallidos@,
            if rama {
                ConsecuenciaV::Rama
            } else {
                ConsecuenciaV::Abortar
            },
        ),
{
    let ghost k = if rama {
        ConsecuenciaV::Rama
    } else {
        ConsecuenciaV::Abortar
    };
    let ghost c = vista_consecuencias(cons@);
    let mut i: usize = 0;
    while i < cons.len()
        invariant
            i <= cons@.len(),
            cons@.len() == fallidos@.len(),
            c == vista_consecuencias(cons@),
            k == (if rama {
                ConsecuenciaV::Rama
            } else {
                ConsecuenciaV::Abortar
            }),
            forall|j: int| 0 <= j < i ==> !(fallidos@[j] && #[trigger] c[j] == k),
        decreases cons@.len() - i,
    {
        assert(c[i as int] == cons@[i as int]@);
        if fallidos[i] {
            let coincide = match &cons[i] {
                Consecuencia::Rama => rama,
                Consecuencia::Abortar => !rama,
                _ => false,
            };
            if coincide {
                assert(c[i as int] == k);
                return true;
            }
        }
        i = i + 1;
    }
    false
}


pub proof fn lema_con_usuario(s: Seq<Seq<char>>, k: Seq<char>)
    requires
        s.no_duplicates(),
    ensures
        con_usuario(s, k).no_duplicates(),
{
}

pub proof fn lema_sin_usuario(s: Seq<Seq<char>>, k: Seq<char>)
    requires
        s.no_duplicates(),
    ensures
        sin_usuario(s, k).no_duplicates(),
{
    if s.contains(k) {
        let i = s.index_of(k);
        let t = s.remove(i);
        assert forall|a: int, b: int| 0 <= a < t.len() && 0 <= b < t.len() && a != b implies t[a]
            != t[b] by {
            let a2 = if a < i {
                a
            } else {
                a + 1
            };
            let b2 = if b < i {
                b
            } else {
                b + 1
            };
            assert(t[a] == s[a2]);
            assert(t[b] == s[b2]);
        }
    }
}

pub proof fn lema_sin_conexiones(con: Map<Seq<char>, u64>, us: Seq<Seq<char>>)
    requires
        con.dom().finite(),
    ensures
        sin_conexiones(con, us).dom().finite(),
        sin_conexiones(con, us).len() <= con.len(),
        forall|u: Seq<char>| #[trigger]
            sin_conexiones(con, us).contains_key(u) ==> con.contains_key(u),
        forall|u: Seq<char>| us.contains(u) ==> !(#[trigger] sin_conexiones(con, us).contains_key(u)),
    decreases us.len(),
{
    if us.len() > 0 {
        lema_sin_conexiones(con, us.drop_last());
        let prev = sin_conexiones(con, us.drop_last());
        assert(sin_conexiones(con, us).dom() =~= prev.dom().remove(us.last()));
        assert forall|u: Seq<char>| us.contains(u) implies !(#[trigger] sin_conexiones(
            con,
            us,
        ).contains_key(u)) by {
            if u != us.last() {
                let i = choose|i: int| 0 <= i < us.len() && us[i] == u;
                assert(us.drop_last()[i] == u);
            }
        }
    }
}

pub proof fn lema_con_desconectados(est: Seq<(Seq<char>, EstadoUsuario)>, us: Seq<Seq<char>>)
    requires
        claves_unicas(est),
    ensures
        claves_unicas(con_desconectados(est, us)),
    decreases us.len(),
{
    if us.len() > 0 {
        lema_con_desconectados(est, us.drop_last());
        lema_con_estado(
            con_desconectados(est, us.drop_last()),
            us.last(),
            EstadoUsuario::Desconectado,
        );
    }
}

/// Lo que un paso conserva: el límite de conexiones y los usuarios
/// registrados con su contraseña.
pub open spec fn conserva_registro(antes: ModeloServidor, despues: ModeloServidor) -> bool {
    &&& despues.limite == antes.limite
    &&& forall|u: Seq<char>| #[trigger]
        antes.usuarios.contains_key(u) ==> despues.usuarios.contains_key(u)
            && despues.usuarios[u] == antes.usuarios[u]
}

proof fn lema_quedar_disponible(m: ModeloServidor, u: Seq<char>)
    requires
        modelo_valido(m),
    ensures
        modelo_valido(quedar_disponible(m, u).0),
        conserva_registro(m, quedar_disponible(m, u).0),
{
    lema_con_estado(m.estados, u, EstadoUsuario::Disponible);
    lema_con_usuario(m.disponibles, u);
}

proof fn lema_paso_desconectarse(m: ModeloServidor, u: Seq<char>)
    requires
        modelo_valido(m),
    ensures
        modelo_valido(paso_desconectarse(m, u).0),
        conserva_registro(m, paso_desconectarse(m, u).0),
{
    lema_modificar_estado(m.estados, u, EstadoUsuario::Desconectado);
    lema_con_estado(m.estados, u, EstadoUsuario::Desconectado);
    lema_sin_usuario(m.disponibles, u);
    let r = paso_desconectarse(m, u).0;
    assert(r.conexiones.dom() =~= m.conexiones.dom().remove(u));
}

proof fn lema_continuar_answer(m: ModeloServidor, e: Seq<char>, r: Seq<char>)
    requires
        modelo_valido(m),
    ensures
        modelo_valido(continuar_answer(m, e, r).0),
        conserva_registro(m, continuar_answer(m, e, r).0),
{
    lema_sin_usuario(m.disponibles, e);
    lema_sin_usuario(sin_usuario(m.disponibles, e), r);
    lema_modificar_estado(m.estados, r, EstadoUsuario::Ocupado);
    lema_con_estado(m.estados, r, EstadoUsuario::Ocupado);
    let est1 = modificar_estado(m.estados, r, EstadoUsuario::Ocupado);
    lema_modificar_estado(est1, e, EstadoUsuario::Ocupado);
    lema_con_estado(est1, e, EstadoUsuario::Ocupado);
}

/// Ningún mensaje recibido rompe la invariante del servidor (en particular,
/// nunca hay más usuarios conectados que el límite, y sólo se conectan
/// usuarios registrados), cambia el límite, ni borra o cambia la contraseña
/// de un usuario registrado.
pub proof fn ley_mensaje_conserva_invariante(m: ModeloServidor, mensaje: MensajeServidor)
    requires
        modelo_valido(m),
    ensures
        modelo_valido(paso_mensaje(m, mensaje).0),
        conserva_registro(m, paso_mensaje(m, mensaje).0),
{
    match mensaje {
        MensajeServidor::Registrar(u, p, c) => {
            lema_con_estado(m.estados, recortar(u@), EstadoUsuario::Desconectado);
        },
        MensajeServidor::Loguear(u, p, c) => {
            let k = recortar(u@);
            lema_sin_clave(m.estados, k);
            if !m.conexiones.contains_key(k) {
                assert(m.conexiones.insert(k, c).dom() =~= m.conexiones.dom().insert(k));
            }
        },
        MensajeServidor::EnviarAnswer(e, r, sdp) => {
            lema_continuar_answer(m, e@, r@);
        },
        MensajeServidor::EstadoDisponible(u) => {
            lema_sin_clave(m.estados, u@);
            lema_quedar_disponible(ModeloServidor { estados: sin_clave(m.estados, u@), ..m }, u@);
        },
        MensajeServidor::Desconectarse(u) => {
            lema_paso_desconectarse(m, u@);
        },
        _ => {},
    }
}

/// Informar el resultado de un lote no rompe la invariante del servidor ni
/// cambia el límite ni los usuarios registrados; además, cada usuario al que
/// no se le pudo enviar un aviso marcado para desconectar queda sin conexión.
pub proof fn ley_resultado_conserva_invariante(m: ModeloServidor, fallidos: Seq<bool>)
    requires
        modelo_valido(m),
    ensures
        paso_resultado(m, fallidos) matches Ok(p) ==> {
            &&& modelo_valido(p.0)
            &&& conserva_registro(m, p.0)
            &&& forall|u: Seq<char>|
                a_desconectar(m.consecuencias, fallidos).contains(u)
                    ==> !(#[trigger] p.0.conexiones.contains_key(u))
        },
{
    if !fallo_con(m.consecuencias, fallidos, ConsecuenciaV::Abortar) {
        let s = a_desconectar(m.consecuencias, fallidos);
        lema_sin_conexiones(m.conexiones, s);
        lema_con_desconectados(m.estados, s);
        let m1 = ModeloServidor {
            conexiones: sin_conexiones(m.conexiones, s),
            estados: con_desconectados(m.estados, s),
            ..m
        };
        assert(modelo_valido(m1));
        match m.continuacion {
            Some(c) => {
                match c {
                    ContinuacionV::ContinuarLogin(u) => {
                        lema_con_estado(m1.estados, u, EstadoUsuario::Desconectado);
                        lema_quedar_disponible(m1, u);
                    },
                    ContinuacionV::ContinuarDisponible(u) => {
                        lema_quedar_disponible(m1, u);
                        lema_paso_desconectarse(m1, u);
                    },
                    ContinuacionV::ContinuarAnswer(e, r) => {
                        lema_continuar_answer(m1, e, r);
                    },
                    _ => {},
                }
            },
            None => {},
        }
    }
}

/// Un usuario recién registrado puede iniciar sesión con su nombre y su
/// contraseña (recortada), si queda lugar para una conexión más.
pub proof fn ley_registrado_puede_entrar(
    m: ModeloServidor,
    usuario: Seq<char>,
    contrasena: Seq<char>,
    c1: u64,
    c2: u64,
)
    requires
        modelo_valido(m),
        recortar(usuario).len() > 0,
        recortar(contrasena).len() > 0,
        !m.usuarios.contains_key(recortar(usuario)),
        m.conexiones.len() < m.limite,
    ensures
        paso_registrar(m, usuario, contrasena, c1).1[0] == AccionV::Enviar(c1, MensajeUsuarioV::Exito),
        paso_loguear(paso_registrar(m, usuario, contrasena, c1).0, usuario, recortar(contrasena), c2).1[0]
            == AccionV::Enviar(c2, MensajeUsuarioV::Exito),
        paso_loguear(paso_registrar(m, usuario, contrasena, c1).0, usuario, recortar(contrasena), c2).0.conexiones
            == m.conexiones.insert(recortar(usuario), c2),
{
    let u = recortar(usuario);
    assert(!m.conexiones.contains_key(u));
}

} // verus!
