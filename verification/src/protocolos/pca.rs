//! Mensajes del protocolo entre el cliente y su manejador en el servidor
//! (PCA), en la forma en que los usa el manejador de usuario.
use vstd::prelude::*;

use crate::servidor_utils::estado_usuario::EstadoUsuario;

verus! {

/// Estado de un usuario tal como se informa al cliente.
#[derive(Debug, Clone, Copy, PartialEq, Eq, Structural)]
pub enum EstadoUsuarioPCA {
    Disponible,
    Ocupado,
    Desconectado,
}

/// Estado PCA que corresponde al estado de un usuario en el servidor.
pub open spec fn estado_pca(e: EstadoUsuario) -> EstadoUsuarioPCA {
    match e {
        EstadoUsuario::Disponible => EstadoUsuarioPCA::Disponible,
        EstadoUsuario::Ocupado => EstadoUsuarioPCA::Ocupado,
        EstadoUsuario::Desconectado => EstadoUsuarioPCA::Desconectado,
    }
}

impl EstadoUsuarioPCA {
    /// Estado PCA de un estado del servidor.
    pub fn from(estado: EstadoUsuario) -> (r: EstadoUsuarioPCA)
        ensures
            r == estado_pca(estado),
    {
        match estado {
            EstadoUsuario::Disponible => EstadoUsuarioPCA::Disponible,
            EstadoUsuario::Ocupado => EstadoUsuarioPCA::Ocupado,
            EstadoUsuario::Desconectado => EstadoUsuarioPCA::Desconectado,
        }
    }
}

/// Usuario y estado, tal como se informan al cliente.
#[derive(Debug, Clone, PartialEq)]
pub struct UsuarioPCA {
    pub nombre: String,
    pub estado: EstadoUsuarioPCA,
}

impl UsuarioPCA {
    /// Usuario con su estado.
    pub fn new(nombre: String, estado: EstadoUsuarioPCA) -> (r: UsuarioPCA)
        ensures
            r.nombre@ == nombre@,
            r.estado == estado,
    {
        UsuarioPCA { nombre, estado }
    }
}

/// Mensajes PCA entre el cliente y su manejador.
#[derive(Debug, Clone, PartialEq)]
pub enum MensajePCA {
    /// Registrar(nombre, contraseña)
    Registrar(String, String),
    /// Entrar(nombre, contraseña)
    Entrar(String, String),
    Registrado,
    ErrorPCA(String),
    /// Llamar(a quién)
    Llamar(String),
    /// Llamando(quién llama)
    Llamando(String),
    Aceptar,
    Rechazo,
    Cortar,
    Salir,
    Salio,
    PedirOffer,
    Offer(String),
    Answer(String),
    UsuarioEstado(UsuarioPCA),
    Usuarios(Vec<UsuarioPCA>),
}

/// Contenido de un [`MensajePCA`] (los usuarios, como pares nombre-estado).
pub enum MensajePCAV {
    Registrar(Seq<char>, Seq<char>),
    Entrar(Seq<char>, Seq<char>),
    Registrado,
    ErrorPCA(Seq<char>),
    Llamar(Seq<char>),
    Llamando(Seq<char>),
    Aceptar,
    Rechazo,
    Cortar,
    Salir,
    Salio,
    PedirOffer,
    Offer(Seq<char>),
    Answer(Seq<char>),
    UsuarioEstado(Seq<char>, EstadoUsuarioPCA),
    Usuarios(Seq<(Seq<char>, EstadoUsuarioPCA)>),
}

/// Contenido de una lista de usuarios PCA.
pub open spec fn vista_usuarios_pca(v: Seq<UsuarioPCA>) -> Seq<(Seq<char>, EstadoUsuarioPCA)> {
    v.map_values(|u: UsuarioPCA| (u.nombre@, u.estado))
}

impl View for MensajePCA {
    type V = MensajePCAV;

    open spec fn view(&self) -> MensajePCAV {
        match self {
            MensajePCA::Registrar(u, p) => MensajePCAV::Registrar(u@, p@),
            MensajePCA::Entrar(u, p) => MensajePCAV::Entrar(u@, p@),
            MensajePCA::Registrado => MensajePCAV::Registrado,
            MensajePCA::ErrorPCA(e) => MensajePCAV::ErrorPCA(e@),
            MensajePCA::Llamar(u) => MensajePCAV::Llamar(u@),
            MensajePCA::Llamando(u) => MensajePCAV::Llamando(u@),
            MensajePCA::Aceptar => MensajePCAV::Aceptar,
            MensajePCA::Rechazo => MensajePCAV::Rechazo,
            MensajePCA::Cortar => MensajePCAV::Cortar,
            MensajePCA::Salir => MensajePCAV::Salir,
            MensajePCA::Salio => MensajePCAV::Salio,
            MensajePCA::PedirOffer => MensajePCAV::PedirOffer,
            MensajePCA::Offer(o) => MensajePCAV::Offer(o@),
            MensajePCA::Answer(a) => MensajePCAV::Answer(a@),
            MensajePCA::UsuarioEstado(u) => MensajePCAV::UsuarioEstado(u.nombre@, u.estado),
            MensajePCA::Usuarios(v) => MensajePCAV::Usuarios(vista_usuarios_pca(v@)),
        }
    }
}

} // verus!
