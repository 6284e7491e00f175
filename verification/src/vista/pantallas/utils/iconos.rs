//! Íconos de la aplicación y cómo se dibuja cada uno.
use vstd::prelude::*;

verus! {

/// Íconos de la aplicación.
#[derive(Debug, Clone, Copy, PartialEq, Eq, Structural)]
pub enum IconoApp {
    Llamar,
    OpcionLlamarInicio,
    CortarLlamada,
    PrevisualizarVideoLocal,
    Logout,
    Usuario,
    MicrofonoActivo,
    MicrofonoInactivo,
    AdjuntarArchivo,
}

/// Color de fondo (rojo, verde, azul) con que se dibuja el ícono como
/// botón redondeado; el de usuario se dibuja sin fondo.
pub open spec fn color_de_fondo(icono: IconoApp) -> Option<(u8, u8, u8)> {
    match icono {
        IconoApp::CortarLlamada => Some((220, 50, 50)),
        IconoApp::OpcionLlamarInicio => Some((52, 53, 65)),
        IconoApp::Llamar => Some((0, 200, 0)),
        IconoApp::PrevisualizarVideoLocal => Some((255, 102, 0)),
        IconoApp::Logout => Some((45, 45, 55)),
        IconoApp::Usuario => None,
        IconoApp::MicrofonoActivo => Some((0, 200, 0)),
        IconoApp::MicrofonoInactivo => Some((220, 50, 50)),
        IconoApp::AdjuntarArchivo => Some((255, 187, 51)),
    }
}

impl IconoApp {
    /// Color de fondo del botón del ícono, o `None` si se dibuja sin fondo.
    pub fn color_fondo(&self) -> (r: Option<(u8, u8, u8)>)
        ensures
            r == color_de_fondo(*self),
    {
        match self {
            IconoApp::CortarLlamada => Some((220, 50, 50)),
            IconoApp::OpcionLlamarInicio => Some((52, 53, 65)),
            IconoApp::Llamar => Some((0, 200, 0)),
            IconoApp::PrevisualizarVideoLocal => Some((255, 102, 0)),
            IconoApp::Logout => Some((45, 45, 55)),
            IconoApp::Usuario => None,
            IconoApp::MicrofonoActivo => Some((0, 200, 0)),
            IconoApp::MicrofonoInactivo => Some((220, 50, 50)),
            IconoApp::AdjuntarArchivo => Some((255, 187, 51)),
        }
    }
}

} // verus!
