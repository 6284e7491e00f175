//! Mensajes entre el servidor central y los manejadores de usuario, y las
//! acciones que el servidor pide ejecutar a quien lo hace correr.
use vstd::prelude::*;

use crate::servidor_utils::estado_usuario::EstadoUsuario;
use crate::texto::{agregar_texto, texto_desde};

verus! {

/// Mensajes que recibe el servidor central de parte de los manejadores de
/// usuario. La conexión de quien se registra o inicia sesión se identifica
/// con un número que asigna quien hace correr el servidor.
#[derive(Debug, Clone, PartialEq)]
pub enum MensajeServidor {
    /// Registrar(nombre, contraseña, conexión)
    Registrar(String, String, u64),
    /// Loguear(nombre, contraseña, conexión)
    Loguear(String, String, u64),
    /// Llamar(quien llama, a quién llama)
    Llamar(String, String),
    /// AceptarLlamada(a quién se le acepta)
    AceptarLlamada(String),
    /// RechazarLlamada(a quién se le rechaza)
    RechazarLlamada(String),
    /// EnviarOffer(a quién se envía, offer)
    EnviarOffer(String, String),
    /// EnviarAnswer(quién la envía, a quién se envía, answer)
    EnviarAnswer(String, String, String),
    /// EstadoDisponible(quién) luego de cortar una llamada
    EstadoDisponible(String),
    /// Desconectarse(quién)
    Desconectarse(String),
}

/// Contenido de un [`MensajeServidor`].
pub enum MensajeServidorV {
    Registrar(Seq<char>, Seq<char>, u64),
    Loguear(Seq<char>, Seq<char>, u64),
    Llamar(Seq<char>, Seq<char>),
    AceptarLlamada(Seq<char>),
    RechazarLlamada(Seq<char>),
    EnviarOffer(Seq<char>, Seq<char>),
    EnviarAnswer(Seq<char>, Seq<char>, Seq<char>),
    EstadoDisponible(Seq<char>),
    Desconectarse(Seq<char>),
}

impl View for MensajeServidor {
    type V = MensajeServidorV;

    open spec fn view(&self) -> MensajeServidorV {
        match self {
            MensajeServidor::Registrar(u, p, c) => MensajeServidorV::Registrar(u@, p@, *c),
            MensajeServidor::Loguear(u, p, c) => MensajeServidorV::Loguear(u@, p@, *c),
            MensajeServidor::Llamar(a, b) => MensajeServidorV::Llamar(a@, b@),
            MensajeServidor::AceptarLlamada(u) => MensajeServidorV::AceptarLlamada(u@),
            MensajeServidor::RechazarLlamada(u) => MensajeServidorV::RechazarLlamada(u@),
            MensajeServidor::EnviarOffer(r, o) => MensajeServidorV::EnviarOffer(r@, o@),
            MensajeServidor::EnviarAnswer(e, r, a) => MensajeServidorV::EnviarAnswer(e@, r@, a@),
            MensajeServidor::EstadoDisponible(u) => MensajeServidorV::EstadoDisponible(u@),
            MensajeServidor::Desconectarse(u) => MensajeServidorV::Desconectarse(u@),
        }
    }
}

/// Texto con que se muestra un mensaje al servidor.
pub open spec fn texto_mensaje_servidor(m: MensajeServidorV) -> Seq<char> {
    match m {
        MensajeServidorV::Registrar(u, p, _) => "REGISTRAR "@ + u + ";"@ + p + ";sender"@,
        MensajeServidorV::Loguear(u, p, _) => "LOGUEAR "@ + u + ";"@ + p + ";sender"@,
        MensajeServidorV::Llamar(quien, a_quien) => "LLAMAR "@ + a_quien + " siendo "@ + quien,
        MensajeServidorV::AceptarLlamada(u) => "LLAMADA ACEPTADA a "@ + u,
        MensajeServidorV::RechazarLlamada(u) => "LLAMADA RECHAZADA a "@ + u,
        MensajeServidorV::EnviarOffer(a, o) => "ENVIO a "@ + a + " OFFER : "@ + o,
        MensajeServidorV::EnviarAnswer(de, a, r) => "ENVIO a "@ + a + " siendo "@ + de
            + " ANSWER : "@ + r,
        MensajeServidorV::EstadoDisponible(u) => "ACTUALIZAR A DISPONIBLE "@ + u,
        MensajeServidorV::Desconectarse(u) => "DESCONECTAR a "@ + u,
    }
}

impl MensajeServidor {
    /// Texto con que se muestra el mensaje.
    pub fn a_texto(&self) -> (r: String)
        ensures
            r@ == texto_mensaje_servidor(self@),
    {
        let mut v: Vec<char> = Vec::new();
        match self {
            MensajeServidor::Registrar(u, p, _) => {
                agregar_texto(&mut v, "REGISTRAR ");
                agregar_texto(&mut v, u.as_str());
                agregar_texto(&mut v, ";");
                agregar_texto(&mut v, p.as_str());
                agregar_texto(&mut v, ";sender");
            },
            MensajeServidor::Loguear(u, p, _) => {
                agregar_texto(&mut v, "LOGUEAR ");
                agregar_texto(&mut v, u.as_str());
                agregar_texto(&mut v, ";");
                agregar_texto(&mut v, p.as_str());
                agregar_texto(&mut v, ";sender");
            },
            MensajeServidor::Llamar(quien, a_quien) => {
                agregar_texto(&mut v, "LLAMAR ");
                agregar_texto(&mut v, a_quien.as_str());
                agregar_texto(&mut v, " siendo ");
                agregar_texto(&mut v, quien.as_str());
            },
            MensajeServidor::AceptarLlamada(u) => {
                agregar_texto(&mut v, "LLAMADA ACEPTADA a ");
                agregar_texto(&mut v, u.as_str());
            },
            MensajeServidor::RechazarLlamada(u) => {
                agregar_texto(&mut v, "LLAMADA RECHAZADA a ");
                agregar_texto(&mut v, u.as_str());
            },
            MensajeServidor::EnviarOffer(a, o) => {
                agregar_texto(&mut v, "ENVIO a ");
                agregar_texto(&mut v, a.as_str());
                agregar_texto(&mut v, " OFFER : ");
                agregar_texto(&mut v, o.as_str());
            },
            MensajeServidor::EnviarAnswer(de, a, r) => {
                agregar_texto(&mut v, "ENVIO a ");
                agregar_texto(&mut v, a.as_str());
                agregar_texto(&mut v, " siendo ");
                agregar_texto(&mut v, de.as_str());
                agregar_texto(&mut v, " ANSWER : ");
                agregar_texto(&mut v, r.as_str());
            },
            MensajeServidor::EstadoDisponible(u) => {
                agregar_texto(&mut v, "ACTUALIZAR A DISPONIBLE ");
                agregar_texto(&mut v, u.as_str());
            },
            MensajeServidor::Desconectarse(u) => {
                agregar_texto(&mut v, "DESCONECTAR a ");
                agregar_texto(&mut v, u.as_str());
            },
        }
        assert(v@ =~= texto_mensaje_servidor(self@));
        texto_desde(v.as_slice())
    }
}

/// Contenido de una lista de mensajes al servidor.
pub open spec fn vista_mensajes_servidor(v: Seq<MensajeServidor>) -> Seq<MensajeServidorV> {
    v.map_values(|m: MensajeServidor| m@)
}

/// Mensajes que recibe un manejador de usuario de parte del servidor.
#[derive(Debug, Clone, PartialEq)]
pub enum MensajeUsuario {
    Exito,
    Error(String),
    /// LlamadaEntrante(quién llama)
    LlamadaEntrante(String),
    LlamadaRechazada,
    /// Aceptaron la llamada: se pide la offer.
    PedirOffer,
    /// PedirAnswer(offer del otro)
    PedirAnswer(String),
    /// EnviarAnswer(answer del otro)
    EnviarAnswer(String),
    /// ActualizarEstadoUsuario(usuario, estado)
    ActualizarEstadoUsuario(String, EstadoUsuario),
    /// Estado de los demás usuarios.
    EstadoUsuarios(Vec<(String, EstadoUsuario)>),
}

/// Contenido de un [`MensajeUsuario`].
pub enum MensajeUsuarioV {
    Exito,
    Error(Seq<char>),
    LlamadaEntrante(Seq<char>),
    LlamadaRechazada,
    PedirOffer,
    PedirAnswer(Seq<char>),
    EnviarAnswer(Seq<char>),
    ActualizarEstadoUsuario(Seq<char>, EstadoUsuario),
    EstadoUsuarios(Seq<(Seq<char>, EstadoUsuario)>),
}

/// Contenido de una lista de pares (usuario, estado).
pub open spec fn vista_estados(v: Seq<(String, EstadoUsuario)>) -> Seq<(Seq<char>, EstadoUsuario)> {
    v.map_values(|p: (String, EstadoUsuario)| (p.0@, p.1))
}

impl View for MensajeUsuario {
    type V = MensajeUsuarioV;

    open spec fn view(&self) -> MensajeUsuarioV {
        match self {
            MensajeUsuario::Exito => MensajeUsuarioV::Exito,
            MensajeUsuario::Error(s) => MensajeUsuarioV::Error(s@),
            MensajeUsuario::LlamadaEntrante(s) => MensajeUsuarioV::LlamadaEntrante(s@),
            MensajeUsuario::LlamadaRechazada => MensajeUsuarioV::LlamadaRechazada,
            MensajeUsuario::PedirOffer => MensajeUsuarioV::PedirOffer,
            MensajeUsuario::PedirAnswer(s) => MensajeUsuarioV::PedirAnswer(s@),
            MensajeUsuario::EnviarAnswer(s) => MensajeUsuarioV::EnviarAnswer(s@),
            MensajeUsuario::ActualizarEstadoUsuario(s, e) => MensajeUsuarioV::ActualizarEstadoUsuario(
                s@,
                *e,
            ),
            MensajeUsuario::EstadoUsuarios(v) => MensajeUsuarioV::EstadoUsuarios(vista_estados(v@)),
        }
    }
}

/// Acción que el servidor pide ejecutar: enviar un mensaje por una conexión
/// o guardar un usuario nuevo en el archivo de usuarios.
#[derive(Debug, Clone, PartialEq)]
pub enum Accion {
    Enviar(u64, MensajeUsuario),
    Persistir(String, String),
}

/// Contenido de una [`Accion`].
pub enum AccionV {
    Enviar(u64, MensajeUsuarioV),
    Persistir(Seq<char>, Seq<char>),
}

impl View for Accion {
    type V = AccionV;

    open spec fn view(&self) -> AccionV {
        match self {
            Accion::Enviar(c, m) => AccionV::Enviar(*c, m@),
            Accion::Persistir(u, p) => AccionV::Persistir(u@, p@),
        }
    }
}

/// Contenido de una lista de acciones.
pub open spec fn vista_acciones(v: Seq<Accion>) -> Seq<AccionV> {
    v.map_values(|a: Accion| a@)
}

} // verus!
