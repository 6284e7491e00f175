//! Manejador de usuario: intermediario entre un cliente (mensajes PCA) y el
//! servidor central. Primero atiende el registro y el inicio de sesión;
//! luego, mientras el usuario está conectado, traduce sus pedidos al
//! servidor y los avisos del servidor al cliente, recordando con qué otro
//! usuario se está procesando una llamada (a lo sumo uno a la vez).
//!
//! Aquí están las decisiones; leer y escribir por la conexión del cliente y
//! por los canales del servidor queda a cargo de quien hace correr el manejador.
use vstd::prelude::*;

use crate::protocolos::pca::{
    estado_pca, vista_usuarios_pca, EstadoUsuarioPCA, MensajePCA, MensajePCAV, UsuarioPCA,
};
use crate::servidor_utils::estado_usuario::EstadoUsuario;
use crate::servidor_utils::mensajes::{
    vista_mensajes_servidor, MensajeServidor, MensajeServidorV, MensajeUsuario, MensajeUsuarioV,
};

verus! {

/// Errores del manejador de usuario.
#[derive(Debug, Clone, Copy, PartialEq, Eq, Structural)]
pub enum ErrorUsuario {
    LecturaStream,
    EnviandoMensajeServidorCentral,
    RecibiendoMensajeServidorCentral,
    EnviandoMensajeUsuarioPorStream,
    ObteniendoLock,
    MensajeFueraDeContexto,
    ErrorInterno,
}

/// Qué hacer si falla escribirle un mensaje al cliente.
#[derive(Debug, Clone, PartialEq)]
pub enum SiFalla {
    /// Nada.
    Ignorar,
    /// Terminar con este error.
    Error(ErrorUsuario),
    /// Enviar estos mensajes al servidor (el cliente se desconectó).
    Avisar(Vec<MensajeServidor>),
}

/// Acción del manejador: un mensaje al servidor, o uno al cliente.
#[derive(Debug, Clone, PartialEq)]
pub enum AccionHandler {
    AlServidor(MensajeServidor),
    AlCliente(MensajePCA, SiFalla),
}

/// Contenido de un [`SiFalla`].
pub enum SiFallaV {
    Ignorar,
    Error(ErrorUsuario),
    Avisar(Seq<MensajeServidorV>),
}

/// Contenido de una [`AccionHandler`].
pub enum AccionHandlerV {
    AlServidor(MensajeServidorV),
    AlCliente(MensajePCAV, SiFallaV),
}

impl View for SiFalla {
    type V = SiFallaV;

    open spec fn view(&self) -> SiFallaV {
        match self {
            SiFalla::Ignorar => SiFallaV::Ignorar,
            SiFalla::Error(e) => SiFallaV::Error(*e),
            SiFalla::Avisar(v) => SiFallaV::Avisar(vista_mensajes_servidor(v@)),
        }
    }
}

impl View for AccionHandler {
    type V = AccionHandlerV;

    open spec fn view(&self) -> AccionHandlerV {
        match self {
            AccionHandler::AlServidor(m) => AccionHandlerV::AlServidor(m@),
            AccionHandler::AlCliente(m, f) => AccionHandlerV::AlCliente(m@, f@),
        }
    }
}

/// Contenido de una lista de acciones del manejador.
pub open spec fn vista_acciones_handler(v: Seq<AccionHandler>) -> Seq<AccionHandlerV> {
    v.map_values(|a: AccionHandler| a@)
}

/// Pedido al servidor que corresponde a un mensaje del cliente antes de
/// iniciar sesión: sólo se aceptan registrarse y entrar.
pub open spec fn pedido_en_login(m: MensajePCAV, conexion: u64) -> Result<MensajeServidorV, ErrorUsuario> {
    match m {
        MensajePCAV::Registrar(u, p) => Ok(MensajeServidorV::Registrar(u, p, conexion)),
        MensajePCAV::Entrar(u, p) => Ok(MensajeServidorV::Loguear(u, p, conexion)),
        _ => Err(ErrorUsuario::MensajeFueraDeContexto),
    }
}

/// Traduce un mensaje del cliente en la etapa de inicio de sesión al pedido
/// para el servidor, que responderá por la conexión dada.
pub fn mensaje_en_login(m: MensajePCA, conexion: u64) -> (r: Result<MensajeServidor, ErrorUsuario>)
    ensures
        match (r, pedido_en_login(m@, conexion)) {
            (Ok(a), Ok(b)) => a@ == b,
            (Err(e), Err(f)) => e == f,
            _ => false,
        },
{
    match m {
        MensajePCA::Registrar(u, p) => Ok(MensajeServidor::Registrar(u, p, conexion)),
        MensajePCA::Entrar(u, p) => Ok(MensajeServidor::Loguear(u, p, conexion)),
        _ => Err(ErrorUsuario::MensajeFueraDeContexto),
    }
}

/// Respuesta al cliente según lo que respondió el servidor a su registro.
pub fn respuesta_registro(respuesta: MensajeUsuario) -> (r: Result<MensajePCA, ErrorUsuario>)
    ensures
        respuesta@ matches MensajeUsuarioV::Exito ==> (r matches Ok(m) && m@
            == MensajePCAV::Registrado),
        respuesta@ matches MensajeUsuarioV::Error(e) ==> (r matches Ok(m) && m@
            == MensajePCAV::ErrorPCA(e)),
        !(respuesta@ is Exito || respuesta@ is Error) ==> r == Err::<MensajePCA, ErrorUsuario>(
            ErrorUsuario::MensajeFueraDeContexto,
        ),
{
    match respuesta {
        MensajeUsuario::Exito => Ok(MensajePCA::Registrado),
        MensajeUsuario::Error(e) => Ok(MensajePCA::ErrorPCA(e)),
        _ => Err(ErrorUsuario::MensajeFueraDeContexto),
    }
}

/// Respuesta según lo que respondió el servidor al inicio de sesión:
/// `None` si entró (termina la etapa de inicio de sesión), o el error a
/// informarle al cliente.
pub fn respuesta_login(respuesta: MensajeUsuario) -> (r: Result<Option<MensajePCA>, ErrorUsuario>)
    ensures
        respuesta@ matches MensajeUsuarioV::Exito ==> r matches Ok(None),
        respuesta@ matches MensajeUsuarioV::Error(e) ==> (r matches Ok(Some(m)) && m@
            == MensajePCAV::ErrorPCA(e)),
        !(respuesta@ is Exito || respuesta@ is Error) ==> r == Err::<Option<MensajePCA>, ErrorUsuario>(
            ErrorUsuario::MensajeFueraDeContexto,
        ),
{
    match respuesta {
        MensajeUsuario::Exito => Ok(None),
        MensajeUsuario::Error(e) => Ok(Some(MensajePCA::ErrorPCA(e))),
        _ => Err(ErrorUsuario::MensajeFueraDeContexto),
    }
}

/// Usuario con el que se procesa la llamada, o `momentaneo` si no hay ninguno.
pub open spec fn con_defecto(p: Option<Seq<char>>) -> Seq<char> {
    match p {
        Some(u) => u,
        None => "momentaneo"@,
    }
}

/// Efecto de un mensaje del cliente conectado: el nuevo usuario con el que
/// se procesa una llamada, los mensajes al servidor y si se sigue escuchando.
pub open spec fn tras_mensaje_cliente(p: Option<Seq<char>>, usuario: Seq<char>, m: MensajePCAV) -> Result<
    (Option<Seq<char>>, Seq<MensajeServidorV>, bool),
    ErrorUsuario,
> {
    match m {
        MensajePCAV::Rechazo => Ok(
            (None, seq![MensajeServidorV::RechazarLlamada(con_defecto(p))], true),
        ),
        MensajePCAV::Cortar => Ok((None, seq![MensajeServidorV::EstadoDisponible(usuario)], true)),
        MensajePCAV::Salir => Ok((p, seq![MensajeServidorV::Desconectarse(usuario)], false)),
        MensajePCAV::Llamar(otro) => if p is Some {
            Ok((p, Seq::empty(), true))
        } else {
            Ok((Some(otro), seq![MensajeServidorV::Llamar(usuario, otro)], true))
        },
        MensajePCAV::Aceptar => Ok((p, seq![MensajeServidorV::AceptarLlamada(con_defecto(p))], true)),
        MensajePCAV::Offer(o) => Ok((p, seq![MensajeServidorV::EnviarOffer(con_defecto(p), o)], true)),
        MensajePCAV::Answer(a) => Ok(
            (p, seq![MensajeServidorV::EnviarAnswer(usuario, con_defecto(p), a)], true),
        ),
        _ => Err(ErrorUsuario::MensajeFueraDeContexto),
    }
}

/// Estados PCA de una lista de pares usuario-estado del servidor.
pub open spec fn usuarios_pca(l: Seq<(Seq<char>, EstadoUsuario)>) -> Seq<(Seq<char>, EstadoUsuarioPCA)> {
    l.map_values(|p: (Seq<char>, EstadoUsuario)| (p.0, estado_pca(p.1)))
}

/// Efecto de un mensaje del servidor: el nuevo usuario con el que se
/// procesa una llamada, las acciones y si se sigue escuchando.
pub open spec fn tras_mensaje_servidor(p: Option<Seq<char>>, usuario: Seq<char>, m: MensajeUsuarioV) -> Result<
    (Option<Seq<char>>, Seq<AccionHandlerV>, bool),
    ErrorUsuario,
> {
    let desconectarme = SiFallaV::Avisar(seq![MensajeServidorV::Desconectarse(usuario)]);
    let cortar = SiFallaV::Error(ErrorUsuario::EnviandoMensajeUsuarioPorStream);
    match m {
        MensajeUsuarioV::LlamadaEntrante(otro) => if p is Some {
            Ok((p, seq![AccionHandlerV::AlServidor(MensajeServidorV::RechazarLlamada(otro))], true))
        } else {
            Ok(
                (
                    Some(otro),
                    seq![
                        AccionHandlerV::AlCliente(
                            MensajePCAV::Llamando(otro),
                            SiFallaV::Avisar(
                                seq![
                                    MensajeServidorV::Desconectarse(usuario),
                                    MensajeServidorV::RechazarLlamada(otro),
                                ],
                            ),
                        ),
                    ],
                    true,
                ),
            )
        },
        MensajeUsuarioV::LlamadaRechazada => Ok(
            (None, seq![AccionHandlerV::AlCliente(MensajePCAV::Rechazo, desconectarme)], true),
        ),
        MensajeUsuarioV::PedirOffer => Ok(
            (p, seq![AccionHandlerV::AlCliente(MensajePCAV::PedirOffer, cortar)], true),
        ),
        MensajeUsuarioV::PedirAnswer(o) => Ok(
            (p, seq![AccionHandlerV::AlCliente(MensajePCAV::Offer(o), cortar)], true),
        ),
        MensajeUsuarioV::EnviarAnswer(a) => Ok(
            (p, seq![AccionHandlerV::AlCliente(MensajePCAV::Answer(a), cortar)], true),
        ),
        MensajeUsuarioV::ActualizarEstadoUsuario(u, e) => Ok(
            (
                p,
                seq![
                    AccionHandlerV::AlCliente(
                        MensajePCAV::UsuarioEstado(u, estado_pca(e)),
                        desconectarme,
                    ),
                ],
                true,
            ),
        ),
        MensajeUsuarioV::EstadoUsuarios(l) => Ok(
            (
                p,
                seq![AccionHandlerV::AlCliente(MensajePCAV::Usuarios(usuarios_pca(l)), desconectarme)],
                true,
            ),
        ),
        MensajeUsuarioV::Exito => Ok(
            (p, seq![AccionHandlerV::AlCliente(MensajePCAV::Salio, SiFallaV::Ignorar)], false),
        ),
        _ => Err(ErrorUsuario::MensajeFueraDeContexto),
    }
}

/// Manejador de un usuario conectado: recuerda con qué otro usuario se está
/// procesando una llamada.
pub struct HandlerUsuario {
    usuario_procesando_llamada: Option<String>,
}

impl HandlerUsuario {
    /// Usuario con el que se procesa una llamada, si hay alguno.
    pub closed spec fn procesando(&self) -> Option<Seq<char>> {
        match self.usuario_procesando_llamada {
            Some(u) => Some(u@),
            None => None,
        }
    }

    /// Manejador sin ninguna llamada en proceso.
    pub fn new() -> (r: HandlerUsuario)
        ensures
            r.procesando() is None,
    {
        HandlerUsuario { usuario_procesando_llamada: None }
    }

    /// Usuario con el que se procesa una llamada, si hay alguno.
    pub fn usuario_procesando_llamada(&self) -> (r: Option<String>)
        ensures
            match r {
                Some(u) => self.procesando() == Some(u@),
                None => self.procesando() is None,
            },
    {
        match &self.usuario_procesando_llamada {
            Some(u) => Some(u.clone()),
            None => None,
        }
    }

    fn otro_o_defecto(&self) -> (r: String)
        ensures
            r@ == con_defecto(self.procesando()),
    {
        match &self.usuario_procesando_llamada {
            Some(u) => u.clone(),
            None => "momentaneo".to_owned(),
        }
    }

    /// Procesa un mensaje del cliente conectado `usuario`: devuelve los
    /// mensajes a enviar al servidor y si hay que seguir escuchando al cliente.
    pub fn mensaje_del_cliente(&mut self, usuario: &String, m: MensajePCA) -> (r: Result<
        (Vec<MensajeServidor>, bool),
        ErrorUsuario,
    >)
        ensures
            match (r, tras_mensaje_cliente(old(self).procesando(), usuario@, m@)) {
                (Ok(a), Ok(b)) => {
                    &&& final(self).procesando() == b.0
                    &&& vista_mensajes_servidor(a.0@) == b.1
                    &&& a.1 == b.2
                },
                (Err(e), Err(f)) => e == f && final(self).procesando() == old(self).procesando(),
                _ => false,
            },
    {
        match m {
            MensajePCA::Rechazo => {
                let otro = self.otro_o_defecto();
                self.usuario_procesando_llamada = None;
                let v = vec![MensajeServidor::RechazarLlamada(otro)];
                assert(vista_mensajes_servidor(v@) =~= seq![
                    MensajeServidorV::RechazarLlamada(con_defecto(old(self).procesando())),
                ]);
                Ok((v, true))
            },
            MensajePCA::Cortar => {
                self.usuario_procesando_llamada = None;
                let v = vec![MensajeServidor::EstadoDisponible(usuario.clone())];
                assert(vista_mensajes_servidor(v@) =~= seq![
                    MensajeServidorV::EstadoDisponible(usuario@),
                ]);
                Ok((v, true))
            },
            MensajePCA::Salir => {
                let v = vec![MensajeServidor::Desconectarse(usuario.clone())];
                assert(vista_mensajes_servidor(v@) =~= seq![
                    MensajeServidorV::Desconectarse(usuario@),
                ]);
                Ok((v, false))
            },
            MensajePCA::Llamar(otro) => {
                if self.usuario_procesando_llamada.is_some() {
                    let v: Vec<MensajeServidor> = Vec::new();
                    assert(vista_mensajes_servidor(v@) =~= Seq::<MensajeServidorV>::empty());
                    Ok((v, true))
                } else {
                    self.usuario_procesando_llamada = Some(otro.clone());
                    let ghost ov = otro@;
                    let v = vec![MensajeServidor::Llamar(usuario.clone(), otro)];
                    assert(vista_mensajes_servidor(v@) =~= seq![
                        MensajeServidorV::Llamar(usuario@, ov),
                    ]);
                    Ok((v, true))
                }
            },
            MensajePCA::Aceptar => {
                let otro = self.otro_o_defecto();
                let v = vec![MensajeServidor::AceptarLlamada(otro)];
                assert(vista_mensajes_servidor(v@) =~= seq![
                    MensajeServidorV::AceptarLlamada(con_defecto(old(self).procesando())),
                ]);
                Ok((v, true))
            },
            MensajePCA::Offer(o) => {
                let otro = self.otro_o_defecto();
                let ghost ov = o@;
                let v = vec![MensajeServidor::EnviarOffer(otro, o)];
                assert(vista_mensajes_servidor(v@) =~= seq![
                    MensajeServidorV::EnviarOffer(con_defecto(old(self).procesando()), ov),
                ]);
                Ok((v, true))
            },
            MensajePCA::Answer(a) => {
                let otro = self.otro_o_defecto();
                let ghost av = a@;
                let v = vec![MensajeServidor::EnviarAnswer(usuario.clone(), otro, a)];
                assert(vista_mensajes_servidor(v@) =~= seq![
                    MensajeServidorV::EnviarAnswer(usuario@, con_defecto(old(self).procesando()), av),
                ]);
                Ok((v, true))
            },
            _ => Err(ErrorUsuario::MensajeFueraDeContexto),
        }
    }

    /// Procesa un mensaje del servidor para el usuario conectado `usuario`:
    /// devuelve las acciones a realizar y si hay que seguir escuchando al servidor.
    pub fn mensaje_del_servidor(&mut self, usuario: &String, m: MensajeUsuario) -> (r: Result<
        (Vec<AccionHandler>, bool),
        ErrorUsuario,
    >)
        ensures
            match (r, tras_mensaje_servidor(old(self).procesando(), usuario@, m@)) {
                (Ok(a), Ok(b)) => {
                    &&& final(self).procesando() == b.0
                    &&& vista_acciones_handler(a.0@) == b.1
                    &&& a.1 == b.2
                },
                (Err(e), Err(f)) => e == f && final(self).procesando() == old(self).procesando(),
                _ => false,
            },
    {
        match m {
            MensajeUsuario::LlamadaEntrante(otro) => {
                if self.usuario_procesando_llamada.is_some() {
                    let ghost ov = otro@;
                    let v = vec![AccionHandler::AlServidor(MensajeServidor::RechazarLlamada(otro))];
                    assert(vista_acciones_handler(v@) =~= seq![
                        AccionHandlerV::AlServidor(MensajeServidorV::RechazarLlamada(ov)),
                    ]);
                    Ok((v, true))
                } else {
                    self.usuario_procesando_llamada = Some(otro.clone());
                    let avisos = vec![
                        MensajeServidor::Desconectarse(usuario.clone()),
                        MensajeServidor::RechazarLlamada(otro.clone()),
                    ];
                    assert(vista_mensajes_servidor(avisos@) =~= seq![
                        MensajeServidorV::Desconectarse(usuario@),
                        MensajeServidorV::RechazarLlamada(otro@),
                    ]);
                    let ghost ov = otro@;
                    let v = vec![AccionHandler::AlCliente(MensajePCA::Llamando(otro), SiFalla::Avisar(avisos))];
                    assert(vista_acciones_handler(v@) =~= seq![
                        AccionHandlerV::AlCliente(
                            MensajePCAV::Llamando(ov),
                            SiFallaV::Avisar(
                                seq![
                                    MensajeServidorV::Desconectarse(usuario@),
                                    MensajeServidorV::RechazarLlamada(ov),
                                ],
                            ),
                        ),
                    ]);
                    Ok((v, true))
                }
            },
            MensajeUsuario::LlamadaRechazada => {
                self.usuario_procesando_llamada = None;
                let v = vec![AccionHandler::AlCliente(MensajePCA::Rechazo, Self::avisar_desconexion(usuario))];
                assert(vista_acciones_handler(v@) =~= seq![
                    AccionHandlerV::AlCliente(
                        MensajePCAV::Rechazo,
                        SiFallaV::Avisar(seq![MensajeServidorV::Desconectarse(usuario@)]),
                    ),
                ]);
                Ok((v, true))
            },
            MensajeUsuario::PedirOffer => {
                let v = vec![AccionHandler::AlCliente(
                    MensajePCA::PedirOffer,
                    SiFalla::Error(ErrorUsuario::EnviandoMensajeUsuarioPorStream),
                )];
                assert(vista_acciones_handler(v@) =~= seq![
                    AccionHandlerV::AlCliente(
                        MensajePCAV::PedirOffer,
                        SiFallaV::Error(ErrorUsuario::EnviandoMensajeUsuarioPorStream),
                    ),
                ]);
                Ok((v, true))
            },
            MensajeUsuario::PedirAnswer(o) => {
                let ghost ov = o@;
                let v = vec![AccionHandler::AlCliente(
                    MensajePCA::Offer(o),
                    SiFalla::Error(ErrorUsuario::EnviandoMensajeUsuarioPorStream),
                )];
                assert(vista_acciones_handler(v@) =~= seq![
                    AccionHandlerV::AlCliente(
                        MensajePCAV::Offer(ov),
                        SiFallaV::Error(ErrorUsuario::EnviandoMensajeUsuarioPorStream),
                    ),
                ]);
                Ok((v, true))
            },
            MensajeUsuario::EnviarAnswer(a) => {
                let ghost av = a@;
                let v = vec![AccionHandler::AlCliente(
                    MensajePCA::Answer(a),
                    SiFalla::Error(ErrorUsuario::EnviandoMensajeUsuarioPorStream),
                )];
                assert(vista_acciones_handler(v@) =~= seq![
                    AccionHandlerV::AlCliente(
                        MensajePCAV::Answer(av),
                        SiFallaV::Error(ErrorUsuario::EnviandoMensajeUsuarioPorStream),
                    ),
                ]);
                Ok((v, true))
            },
            MensajeUsuario::ActualizarEstadoUsuario(u, e) => {
                let ghost uv = u@;
                let v = vec![AccionHandler::AlCliente(
                    MensajePCA::UsuarioEstado(UsuarioPCA::new(u, EstadoUsuarioPCA::from(e))),
                    Self::avisar_desconexion(usuario),
                )];
                assert(vista_acciones_handler(v@) =~= seq![
                    AccionHandlerV::AlCliente(
                        MensajePCAV::UsuarioEstado(uv, estado_pca(e)),
                        SiFallaV::Avisar(seq![MensajeServidorV::Desconectarse(usuario@)]),
                    ),
                ]);
                Ok((v, true))
            },
            MensajeUsuario::EstadoUsuarios(lista) => {
                let usuarios = Self::convertir_usuarios(&lista);
                let ghost uv = vista_usuarios_pca(usuarios@);
                let v = vec![AccionHandler::AlCliente(
                    MensajePCA::Usuarios(usuarios),
                    Self::avisar_desconexion(usuario),
                )];
                assert(vista_acciones_handler(v@) =~= seq![
                    AccionHandlerV::AlCliente(
                        MensajePCAV::Usuarios(uv),
                        SiFallaV::Avisar(seq![MensajeServidorV::Desconectarse(usuario@)]),
                    ),
                ]);
                Ok((v, true))
            },
            MensajeUsuario::Exito => {
                let v = vec![AccionHandler::AlCliente(MensajePCA::Salio, SiFalla::Ignorar)];
                assert(vista_acciones_handler(v@) =~= seq![
                    AccionHandlerV::AlCliente(MensajePCAV::Salio, SiFallaV::Ignorar),
                ]);
                Ok((v, false))
            },
            _ => Err(ErrorUsuario::MensajeFueraDeContexto),
        }
    }

    fn avisar_desconexion(usuario: &String) -> (r: SiFalla)
        ensures
            r@ == SiFallaV::Avisar(seq![MensajeServidorV::Desconectarse(usuario@)]),
    {
        let v = vec![MensajeServidor::Desconectarse(usuario.clone())];
        assert(vista_mensajes_servidor(v@) =~= seq![MensajeServidorV::Desconectarse(usuario@)]);
        SiFalla::Avisar(v)
    }

    fn convertir_usuarios(lista: &Vec<(String, EstadoUsuario)>) -> (r: Vec<UsuarioPCA>)
        ensures
            vista_usuarios_pca(r@) == usuarios_pca(crate::servidor_utils::mensajes::vista_estados(
                lista@,
            )),
    {
        let ghost esperado = usuarios_pca(crate::servidor_utils::mensajes::vista_estados(lista@));
        let mut r: Vec<UsuarioPCA> = Vec::new();
        let mut i: usize = 0;
        while i < lista.len()
            invariant
                i <= lista@.len(),
                esperado == usuarios_pca(crate::servidor_utils::mensajes::vista_estados(lista@)),
                vista_usuarios_pca(r@) == esperado.take(i as int),
            decreases lista@.len() - i,
        {
            let ghost r0 = vista_usuarios_pca(r@);
            r.push(UsuarioPCA::new(lista[i].0.clone(), EstadoUsuarioPCA::from(lista[i].1)));
            assert(vista_usuarios_pca(r@) =~= r0.push(esperado[i as int]));
            assert(esperado.take(i + 1) =~= esperado.take(i as int).push(esperado[i as int]));
            i = i + 1;
        }
        assert(esperado.take(i as int) =~= esperado);
        r
    }
}

/// Mientras se procesa una llamada con un usuario no se procesa otra: el
/// pedido del cliente de llamar a alguien se ignora, y una llamada entrante
/// se rechaza, sin cambiar con quién se procesa la llamada.
pub proof fn ley_una_llamada_a_la_vez(x: Seq<char>, usuario: Seq<char>, otro: Seq<char>)
    ensures
        tras_mensaje_cliente(Some(x), usuario, MensajePCAV::Llamar(otro)) == Ok::<
            (Option<Seq<char>>, Seq<MensajeServidorV>, bool),
            ErrorUsuario,
        >((Some(x), Seq::empty(), true)),
        tras_mensaje_servidor(Some(x), usuario, MensajeUsuarioV::LlamadaEntrante(otro)) == Ok::<
            (Option<Seq<char>>, Seq<AccionHandlerV>, bool),
            ErrorUsuario,
        >((Some(x), seq![AccionHandlerV::AlServidor(MensajeServidorV::RechazarLlamada(otro))], true)),
{
}

/// Cortar libera al manejador: sea cual sea la llamada en proceso, después
/// del `Cortar` del cliente no se procesa ninguna, se avisa al servidor que
/// el usuario está disponible, y un pedido posterior de llamar a cualquier
/// otro usuario se envía al servidor. Lo mismo vale después de rechazar.
pub proof fn ley_cortar_permite_llamar_de_nuevo(
    p: Option<Seq<char>>,
    usuario: Seq<char>,
    otro: Seq<char>,
)
    ensures
        tras_mensaje_cliente(p, usuario, MensajePCAV::Cortar) matches Ok(r) && r.0 is None
            && r.1 == seq![MensajeServidorV::EstadoDisponible(usuario)] && r.2,
        tras_mensaje_cliente(p, usuario, MensajePCAV::Rechazo) matches Ok(r) && r.0 is None,
        tras_mensaje_cliente(None, usuario, MensajePCAV::Llamar(otro)) == Ok::<
            (Option<Seq<char>>, Seq<MensajeServidorV>, bool),
            ErrorUsuario,
        >((Some(otro), seq![MensajeServidorV::Llamar(usuario, otro)], true)),
        ({
            let despues = tras_mensaje_cliente(p, usuario, MensajePCAV::Cortar)->Ok_0.0;
            tras_mensaje_cliente(despues, usuario, MensajePCAV::Llamar(otro)) == Ok::<
                (Option<Seq<char>>, Seq<MensajeServidorV>, bool),
                ErrorUsuario,
            >((Some(otro), seq![MensajeServidorV::Llamar(usuario, otro)], true))
        }),
{
}

} // verus!
