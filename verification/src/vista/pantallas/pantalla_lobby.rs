//! Pantalla principal con la sesión iniciada: usuarios, cámaras y avisos de
//! llamadas salientes y entrantes.
use vstd::prelude::*;

use crate::aplicacion::EventoAplicacion;
use crate::protocolos::pca::{vista_usuarios_pca, EstadoUsuarioPCA, UsuarioPCA};
use crate::vista::pantallas::pantalla::{AccionPantalla, Pantalla};

verus! {

/// Pantalla principal con la sesión iniciada.
#[derive(Default)]
pub struct PantallaLobby {
    usuarios: Vec<UsuarioPCA>,
    usuario_siendo_llamado: Option<String>,
    usuario_llamandome: Option<String>,
    lista_camaras: Vec<String>,
    se_pidieron_usuarios: bool,
    se_pidio_lista_de_camaras: bool,
    se_eligio_camara: bool,
    camara_actual: String,
}

/// Lo que recuerda una [`PantallaLobby`].
pub struct PantallaLobbyV {
    pub usuarios: Seq<(Seq<char>, EstadoUsuarioPCA)>,
    pub usuario_siendo_llamado: Option<Seq<char>>,
    pub usuario_llamandome: Option<Seq<char>>,
    pub lista_camaras: Seq<Seq<char>>,
    pub se_pidieron_usuarios: bool,
    pub se_pidio_lista_de_camaras: bool,
    pub se_eligio_camara: bool,
    pub camara_actual: Seq<char>,
}

/// Contenido de un texto opcional.
pub open spec fn vista_opcional(o: Option<String>) -> Option<Seq<char>> {
    match o {
        Some(s) => Some(s@),
        None => None,
    }
}

/// Contenido de una lista de textos.
pub open spec fn vista_textos(v: Seq<String>) -> Seq<Seq<char>> {
    v.map_values(|s: String| s@)
}

impl View for PantallaLobby {
    type V = PantallaLobbyV;

    closed spec fn view(&self) -> PantallaLobbyV {
        PantallaLobbyV {
            usuarios: vista_usuarios_pca(self.usuarios@),
            usuario_siendo_llamado: vista_opcional(self.usuario_siendo_llamado),
            usuario_llamandome: vista_opcional(self.usuario_llamandome),
            lista_camaras: vista_textos(self.lista_camaras@),
            se_pidieron_usuarios: self.se_pidieron_usuarios,
            se_pidio_lista_de_camaras: self.se_pidio_lista_de_camaras,
            se_eligio_camara: self.se_eligio_camara,
            camara_actual: self.camara_actual@,
        }
    }
}

/// Estado de la pantalla luego de un evento: la lista de usuarios, a quién
/// se está llamando (hasta que rechaza), quién está llamando (hasta que se
/// rechaza su llamada), la lista de cámaras y la cámara en uso.
pub open spec fn lobby_tras_evento(v: PantallaLobbyV, e: EventoAplicacion) -> PantallaLobbyV {
    match e {
        EventoAplicacion::UsuariosNuevos(us) => PantallaLobbyV {
            usuarios: vista_usuarios_pca(us@),
            ..v
        },
        EventoAplicacion::EnviandoLlamada(u) => PantallaLobbyV {
            usuario_siendo_llamado: Some(u@),
            ..v
        },
        EventoAplicacion::RecibiendoLlamada(u) => PantallaLobbyV {
            usuario_llamandome: Some(u@),
            ..v
        },
        EventoAplicacion::LlamadaExternaRechazada => PantallaLobbyV {
            usuario_llamandome: None,
            ..v
        },
        EventoAplicacion::LlamadaRechazada => PantallaLobbyV { usuario_siendo_llamado: None, ..v },
        EventoAplicacion::NuevaListaDeCamarasDisponibles(l) => PantallaLobbyV {
            lista_camaras: vista_textos(l@),
            ..v
        },
        EventoAplicacion::NuevaCamaraEnUso(c) => PantallaLobbyV { camara_actual: c@, ..v },
        _ => v,
    }
}

/// Un usuario se puede llamar si está disponible.
pub fn puede_llamar(usuario: &UsuarioPCA) -> (r: bool)
    ensures
        r == (usuario.estado == EstadoUsuarioPCA::Disponible),
{
    match usuario.estado {
        EstadoUsuarioPCA::Disponible => true,
        _ => false,
    }
}

impl PantallaLobby {
    /// Acción que resulta de mostrar la pantalla, dada la acción que eligió
    /// el usuario. Al empezar, la pantalla pide por única vez la lista de
    /// cámaras; luego, en cuanto hay alguna, elige la primera; luego pide
    /// por única vez la lista de usuarios. Mientras tanto esos pedidos
    /// reemplazan a la acción del usuario; después, ésta pasa sin cambios.
    pub fn accion_tras_mostrar(&mut self, accion: AccionPantalla) -> (r: AccionPantalla)
        ensures
            final(self)@.usuarios == old(self)@.usuarios,
            final(self)@.usuario_siendo_llamado == old(self)@.usuario_siendo_llamado,
            final(self)@.usuario_llamandome == old(self)@.usuario_llamandome,
            final(self)@.lista_camaras == old(self)@.lista_camaras,
            final(self)@.camara_actual == old(self)@.camara_actual,
            !old(self)@.se_pidio_lista_de_camaras ==> {
                &&& r == AccionPantalla::PedirListaDeCamaras
                &&& final(self)@.se_pidio_lista_de_camaras
                &&& final(self)@.se_eligio_camara == old(self)@.se_eligio_camara
                &&& final(self)@.se_pidieron_usuarios == old(self)@.se_pidieron_usuarios
            },
            old(self)@.se_pidio_lista_de_camaras && !old(self)@.se_eligio_camara ==> {
                &&& final(self)@.se_pidio_lista_de_camaras
                &&& final(self)@.se_pidieron_usuarios == old(self)@.se_pidieron_usuarios
                &&& old(self)@.lista_camaras.len() > 0 ==> (r matches AccionPantalla::CambiarCamara(
                    c,
                ) && c@ == old(self)@.lista_camaras[0] && final(self)@.se_eligio_camara)
                &&& old(self)@.lista_camaras.len() == 0 ==> (r == accion
                    && !final(self)@.se_eligio_camara)
            },
            old(self)@.se_pidio_lista_de_camaras && old(self)@.se_eligio_camara
                && !old(self)@.se_pidieron_usuarios ==> {
                &&& r == AccionPantalla::PedirUsuarios
                &&& final(self)@.se_pidio_lista_de_camaras
                &&& final(self)@.se_eligio_camara
                &&& final(self)@.se_pidieron_usuarios
            },
            old(self)@.se_pidio_lista_de_camaras && old(self)@.se_eligio_camara
                && old(self)@.se_pidieron_usuarios ==> (r == accion && final(self)@ == old(self)@),
    {
        if !self.se_pidio_lista_de_camaras {
            self.se_pidio_lista_de_camaras = true;
            AccionPantalla::PedirListaDeCamaras
        } else if !self.se_eligio_camara {
            if self.lista_camaras.len() > 0 {
                self.se_eligio_camara = true;
                AccionPantalla::CambiarCamara(self.lista_camaras[0].clone())
            } else {
                accion
            }
        } else if !self.se_pidieron_usuarios {
            self.se_pidieron_usuarios = true;
            AccionPantalla::PedirUsuarios
        } else {
            accion
        }
    }

    /// Usuario al que se está llamando, si hay alguno.
    pub fn usuario_siendo_llamado(&self) -> (r: Option<String>)
        ensures
            vista_opcional(r) == self@.usuario_siendo_llamado,
    {
        match &self.usuario_siendo_llamado {
            Some(u) => Some(u.clone()),
            None => None,
        }
    }

    /// Usuario que está llamando, si hay alguno.
    pub fn usuario_llamandome(&self) -> (r: Option<String>)
        ensures
            vista_opcional(r) == self@.usuario_llamandome,
    {
        match &self.usuario_llamandome {
            Some(u) => Some(u.clone()),
            None => None,
        }
    }

    /// Cámara en uso.
    pub fn camara_actual(&self) -> (r: String)
        ensures
            r@ == self@.camara_actual,
    {
        self.camara_actual.clone()
    }
}

impl Pantalla for PantallaLobby {
    /// Actualiza la pantalla según [`lobby_tras_evento`].
    fn escuchar_evento(&mut self, evento: EventoAplicacion)
        ensures
            final(self)@ == lobby_tras_evento(old(self)@, evento),
    {
        let ghost e = evento;
        match evento {
            EventoAplicacion::UsuariosNuevos(usuarios) => self.usuarios = usuarios,
            EventoAplicacion::EnviandoLlamada(usuario) => self.usuario_siendo_llamado = Some(usuario),
            EventoAplicacion::RecibiendoLlamada(usuario) => self.usuario_llamandome = Some(usuario),
            EventoAplicacion::LlamadaExternaRechazada => self.usuario_llamandome = None,
            EventoAplicacion::LlamadaRechazada => self.usuario_siendo_llamado = None,
            EventoAplicacion::NuevaListaDeCamarasDisponibles(lista_camaras) => {
                self.lista_camaras = lista_camaras
            },
            EventoAplicacion::NuevaCamaraEnUso(nombre_camara) => self.camara_actual = nombre_camara,
            _ => {},
        }
        assert(self@ =~= lobby_tras_evento(old(self)@, e));
    }
}

} // verus!
