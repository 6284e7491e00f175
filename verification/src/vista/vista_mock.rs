//! Vista simulada, para probar qué eventos le informa la aplicación: recibe
//! los eventos por un canal y recuerda los que le interesan.
use vstd::prelude::*;

use std::sync::mpsc::{Receiver, Sender};

use crate::aplicacion::EventoAplicacion;
use crate::protocolos::pca::{vista_usuarios_pca, EstadoUsuarioPCA, UsuarioPCA};
use crate::texto::{caracteres, mismos_caracteres};
use crate::vista::ErrorVista;

verus! {

/// Tiempo máximo, en milisegundos, que se espera por un evento.
pub const TIEMPO_ESPERA_MAXIMO: u64 = 30000;

/// Llama a `std::sync::mpsc::channel`: un canal nuevo, vacío. Nada se
/// afirma de los extremos: su contenido no está en el modelo.
#[verifier::external_body]
fn canal_eventos() -> (r: (Sender<EventoAplicacion>, Receiver<EventoAplicacion>)) {
    std::sync::mpsc::channel()
}

/// Llama a `Sender::clone`: otro emisor del mismo canal.
#[verifier::external_body]
fn clonar_emisor(s: &Sender<EventoAplicacion>) -> (r: Sender<EventoAplicacion>) {
    s.clone()
}

/// Llama a `Receiver::try_iter`: los eventos que ya llegaron, en orden, sin
/// esperar. Cuáles son depende de los otros hilos: nada se afirma de ellos.
#[verifier::external_body]
fn eventos_pendientes(r: &Receiver<EventoAplicacion>) -> (v: Vec<EventoAplicacion>) {
    r.try_iter().collect()
}

/// Llama a `Receiver::recv_timeout` con una espera de `ms` milisegundos:
/// el próximo evento, o `None` si no llegó a tiempo o el canal se cerró.
#[verifier::external_body]
fn esperar_evento(r: &Receiver<EventoAplicacion>, ms: u64) -> (e: Option<EventoAplicacion>) {
    r.recv_timeout(std::time::Duration::from_millis(ms)).ok()
}

/// Copia de una lista de usuarios.
pub fn clonar_usuarios(v: &Vec<UsuarioPCA>) -> (r: Vec<UsuarioPCA>)
    ensures
        vista_usuarios_pca(r@) == vista_usuarios_pca(v@),
{
    let mut r: Vec<UsuarioPCA> = Vec::new();
    let mut i: usize = 0;
    while i < v.len()
        invariant
            i <= v.len(),
            r@.len() == i,
            forall|j: int|
                0 <= j < i ==> r@[j].nombre@ == v@[j].nombre@ && r@[j].estado == v@[j].estado,
        decreases v.len() - i,
    {
        let u = UsuarioPCA::new(v[i].nombre.clone(), v[i].estado);
        r.push(u);
        i = i + 1;
    }
    assert(vista_usuarios_pca(r@) =~= vista_usuarios_pca(v@));
    r
}

/// Lo que recuerda una [`VistaMock`].
pub struct VistaMockV {
    pub sesion_iniciada: bool,
    pub usuarios_actualizados: bool,
    pub ultimos_usuarios: Seq<(Seq<char>, EstadoUsuarioPCA)>,
    pub registro_exitoso: bool,
    pub enviando_llamada: bool,
    pub usuario_siendo_llamado: Seq<char>,
    pub recibiendo_llamada: bool,
    pub llamada_iniciada: bool,
    pub usuario_llamandome: Seq<char>,
}

/// Estado de una vista simulada recién creada.
pub open spec fn vista_mock_inicial() -> VistaMockV {
    VistaMockV {
        sesion_iniciada: false,
        usuarios_actualizados: false,
        ultimos_usuarios: Seq::empty(),
        registro_exitoso: false,
        enviando_llamada: false,
        usuario_siendo_llamado: Seq::empty(),
        recibiendo_llamada: false,
        llamada_iniciada: false,
        usuario_llamandome: Seq::empty(),
    }
}

/// Estado de la vista simulada luego de un evento: se recuerdan el inicio de
/// sesión, la última lista de usuarios, el registro exitoso, a quién se está
/// llamando, quién está llamando y el inicio de la llamada; el resto de los
/// eventos no la cambian.
pub open spec fn tras_evento(v: VistaMockV, e: EventoAplicacion) -> VistaMockV {
    match e {
        EventoAplicacion::SesionIniciada => VistaMockV { sesion_iniciada: true, ..v },
        EventoAplicacion::UsuariosNuevos(us) => VistaMockV {
            usuarios_actualizados: true,
            ultimos_usuarios: vista_usuarios_pca(us@),
            ..v
        },
        EventoAplicacion::RegistroExitoso => VistaMockV { registro_exitoso: true, ..v },
        EventoAplicacion::RecibiendoLlamada(u) => VistaMockV {
            recibiendo_llamada: true,
            usuario_llamandome: u@,
            ..v
        },
        EventoAplicacion::EnviandoLlamada(u) => VistaMockV {
            enviando_llamada: true,
            usuario_siendo_llamado: u@,
            ..v
        },
        EventoAplicacion::LlamadaIniciada => VistaMockV { llamada_iniciada: true, ..v },
        _ => v,
    }
}

/// Estado de la vista simulada luego de una serie de eventos, en orden.
pub open spec fn tras_eventos(v: VistaMockV, es: Seq<EventoAplicacion>) -> VistaMockV
    decreases es.len(),
{
    if es.len() == 0 {
        v
    } else {
        tras_evento(tras_eventos(v, es.drop_last()), es.last())
    }
}

/// Vista simulada: recuerda qué eventos le informó la aplicación.
pub struct VistaMock {
    sesion_iniciada: bool,
    usuarios_actualizados: bool,
    ultimos_usuarios: Vec<UsuarioPCA>,
    registro_exitoso: bool,
    enviando_llamada: bool,
    usuario_siendo_llamado: String,
    recibiendo_llamada: bool,
    llamada_iniciada: bool,
    usuario_llamandome: String,
    receiver_eventos: Receiver<EventoAplicacion>,
    sender_eventos: Sender<EventoAplicacion>,
}

impl View for VistaMock {
    type V = VistaMockV;

    closed spec fn view(&self) -> VistaMockV {
        VistaMockV {
            sesion_iniciada: self.sesion_iniciada,
            usuarios_actualizados: self.usuarios_actualizados,
            ultimos_usuarios: vista_usuarios_pca(self.ultimos_usuarios@),
            registro_exitoso: self.registro_exitoso,
            enviando_llamada: self.enviando_llamada,
            usuario_siendo_llamado: self.usuario_siendo_llamado@,
            recibiendo_llamada: self.recibiendo_llamada,
            llamada_iniciada: self.llamada_iniciada,
            usuario_llamandome: self.usuario_llamandome@,
        }
    }
}

impl Default for VistaMock {
    /// Vista que todavía no recibió eventos, con un canal nuevo.
    fn default() -> (r: Self)
        ensures
            r@ == vista_mock_inicial(),
    {
        let (sender_eventos, receiver_eventos) = canal_eventos();
        let r = VistaMock {
            sesion_iniciada: false,
            usuarios_actualizados: false,
            ultimos_usuarios: Vec::new(),
            registro_exitoso: false,
            enviando_llamada: false,
            usuario_siendo_llamado: String::new(),
            recibiendo_llamada: false,
            llamada_iniciada: false,
            usuario_llamandome: String::new(),
            receiver_eventos,
            sender_eventos,
        };
        assert(r.usuario_siendo_llamado@ =~= Seq::<char>::empty());
        assert(r.usuario_llamandome@ =~= Seq::<char>::empty());
        assert(vista_usuarios_pca(r.ultimos_usuarios@) =~= Seq::empty());
        r
    }
}

impl VistaMock {
    /// Si se informó que se inició sesión.
    pub fn sesion_iniciada(&self) -> (r: bool)
        ensures
            r == self@.sesion_iniciada,
    {
        self.sesion_iniciada
    }

    /// Si se informó una lista de usuarios.
    pub fn usuarios_actualizados(&self) -> (r: bool)
        ensures
            r == self@.usuarios_actualizados,
    {
        self.usuarios_actualizados
    }

    /// La última lista de usuarios informada.
    pub fn ultimos_usuarios(&self) -> (r: Vec<UsuarioPCA>)
        ensures
            vista_usuarios_pca(r@) == self@.ultimos_usuarios,
    {
        clonar_usuarios(&self.ultimos_usuarios)
    }

    /// Si se informó un registro exitoso.
    pub fn se_informo_registro_exitoso(&self) -> (r: bool)
        ensures
            r == self@.registro_exitoso,
    {
        self.registro_exitoso
    }

    /// Si se informó que se inició sesión.
    pub fn se_informo_sesion_iniciada(&self) -> (r: bool)
        ensures
            r == self@.sesion_iniciada,
    {
        self.sesion_iniciada
    }

    /// Si se informó que se está llamando al usuario dado.
    pub fn se_informo_enviando_llamada(&self, usuario: &str) -> (r: bool)
        ensures
            r == (self@.enviando_llamada && self@.usuario_siendo_llamado == usuario@),
    {
        if !self.enviando_llamada {
            return false;
        }
        let a = caracteres(self.usuario_siendo_llamado.as_str());
        let b = caracteres(usuario);
        mismos_caracteres(a.as_slice(), b.as_slice())
    }

    /// Si se informó que el usuario dado está llamando.
    pub fn se_informo_recibiendo_llamada(&self, usuario: &str) -> (r: bool)
        ensures
            r == (self@.recibiendo_llamada && self@.usuario_llamandome == usuario@),
    {
        if !self.recibiendo_llamada {
            return false;
        }
        let a = caracteres(self.usuario_llamandome.as_str());
        let b = caracteres(usuario);
        mismos_caracteres(a.as_slice(), b.as_slice())
    }

    /// Si se informó que se inició la llamada.
    pub fn se_informo_llamada_iniciada(&self) -> (r: bool)
        ensures
            r == self@.llamada_iniciada,
    {
        self.llamada_iniciada
    }

    /// Emisor por el que la aplicación le informa los eventos a esta vista.
    pub fn obtener_sender_eventos(&self) -> Sender<EventoAplicacion> {
        clonar_emisor(&self.sender_eventos)
    }

    /// Actualiza la vista según un evento.
    pub fn procesar_evento(&mut self, evento: EventoAplicacion) -> (r: Result<(), ErrorVista>)
        ensures
            r is Ok,
            final(self)@ == tras_evento(old(self)@, evento),
    {
        let ghost e = evento;
        match evento {
            EventoAplicacion::SesionIniciada => {
                self.sesion_iniciada = true;
            },
            EventoAplicacion::UsuariosNuevos(usuarios) => {
                self.usuarios_actualizados = true;
                self.ultimos_usuarios = usuarios;
            },
            EventoAplicacion::RegistroExitoso => {
                self.registro_exitoso = true;
            },
            EventoAplicacion::RecibiendoLlamada(usuario) => {
                self.recibiendo_llamada = true;
                self.usuario_llamandome = usuario;
            },
            EventoAplicacion::EnviandoLlamada(usuario) => {
                self.enviando_llamada = true;
                self.usuario_siendo_llamado = usuario;
            },
            EventoAplicacion::LlamadaIniciada => {
                self.llamada_iniciada = true;
            },
            _ => {},
        }
        assert(self@ =~= tras_evento(old(self)@, e));
        Ok(())
    }

    /// Actualiza la vista según una serie de eventos, en orden.
    pub fn procesar_lista_eventos(&mut self, eventos: Vec<EventoAplicacion>)
        ensures
            final(self)@ == tras_eventos(old(self)@, eventos@),
    {
        let ghost es = eventos@;
        for evento in it: eventos
            invariant
                es == it.seq(),
                self@ == tras_eventos(old(self)@, es.take(it.index() as int)),
        {
            let ghost k = it.index();
            assert(es.take(k + 1).drop_last() =~= es.take(k as int));
            let _ = self.procesar_evento(evento);
        }
        assert(es.take(es.len() as int) =~= es);
    }

    /// Procesa los eventos que ya llegaron por el canal, sin esperar.
    pub fn procesar_eventos(&mut self)
        ensures
            exists|es: Seq<EventoAplicacion>| final(self)@ == tras_eventos(old(self)@, es),
    {
        let eventos = eventos_pendientes(&self.receiver_eventos);
        let ghost es = eventos@;
        self.procesar_lista_eventos(eventos);
        assert(self@ == tras_eventos(old(self)@, es));
    }

    /// Espera el próximo evento hasta [`TIEMPO_ESPERA_MAXIMO`] milisegundos
    /// y lo procesa; devuelve si llegó alguno.
    pub fn esperar_y_procesar_evento(&mut self) -> (r: bool)
        ensures
            !r ==> final(self)@ == old(self)@,
            r ==> exists|e: EventoAplicacion| final(self)@ == tras_evento(old(self)@, e),
    {
        match esperar_evento(&self.receiver_eventos, TIEMPO_ESPERA_MAXIMO) {
            Some(evento) => {
                let ghost e = evento;
                let _ = self.procesar_evento(evento);
                assert(self@ == tras_evento(old(self)@, e));
                true
            },
            None => false,
        }
    }
}

} // verus!
