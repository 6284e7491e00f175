use room_rtc_2c_25::protocolos::pca::{EstadoUsuarioPCA, MensajePCA, UsuarioPCA};
use room_rtc_2c_25::servidor_utils::estado_usuario::EstadoUsuario;
use room_rtc_2c_25::servidor_utils::handler_usuario::{
    mensaje_en_login, respuesta_login, respuesta_registro, AccionHandler, ErrorUsuario,
    HandlerUsuario, SiFalla,
};
use room_rtc_2c_25::servidor_utils::mensajes::{MensajeServidor, MensajeUsuario};

fn s(x: &str) -> String {
    x.to_string()
}

#[test]
fn etapa_login_traduce_registro_y_entrada() {
    assert_eq!(
        mensaje_en_login(MensajePCA::Registrar(s("ana"), s("1")), 7).unwrap(),
        MensajeServidor::Registrar(s("ana"), s("1"), 7)
    );
    assert_eq!(
        mensaje_en_login(MensajePCA::Entrar(s("ana"), s("1")), 7).unwrap(),
        MensajeServidor::Loguear(s("ana"), s("1"), 7)
    );
    assert_eq!(
        mensaje_en_login(MensajePCA::Cortar, 7).unwrap_err(),
        ErrorUsuario::MensajeFueraDeContexto
    );
}

#[test]
fn respuestas_del_servidor_en_login() {
    assert_eq!(respuesta_registro(MensajeUsuario::Exito).unwrap(), MensajePCA::Registrado);
    assert_eq!(
        respuesta_registro(MensajeUsuario::Error(s("x"))).unwrap(),
        MensajePCA::ErrorPCA(s("x"))
    );
    assert_eq!(
        respuesta_registro(MensajeUsuario::PedirOffer).unwrap_err(),
        ErrorUsuario::MensajeFueraDeContexto
    );
    assert_eq!(respuesta_login(MensajeUsuario::Exito).unwrap(), None);
    assert_eq!(
        respuesta_login(MensajeUsuario::Error(s("y"))).unwrap(),
        Some(MensajePCA::ErrorPCA(s("y")))
    );
}

#[test]
fn llamar_solo_si_no_hay_otra_llamada() {
    let mut h = HandlerUsuario::new();
    let yo = s("ana");
    let (v, seguir) = h.mensaje_del_cliente(&yo, MensajePCA::Llamar(s("beto"))).unwrap();
    assert!(seguir);
    assert_eq!(v, vec![MensajeServidor::Llamar(s("ana"), s("beto"))]);
    assert_eq!(h.usuario_procesando_llamada(), Some(s("beto")));
    let (v2, _) = h.mensaje_del_cliente(&yo, MensajePCA::Llamar(s("caro"))).unwrap();
    assert!(v2.is_empty());
    assert_eq!(h.usuario_procesando_llamada(), Some(s("beto")));
    // una llamada entrante mientras tanto se rechaza
    let (a, _) = h.mensaje_del_servidor(&yo, MensajeUsuario::LlamadaEntrante(s("dani"))).unwrap();
    assert_eq!(a, vec![AccionHandler::AlServidor(MensajeServidor::RechazarLlamada(s("dani")))]);
}

#[test]
fn pedidos_del_cliente_usan_el_otro_usuario_o_momentaneo() {
    let mut h = HandlerUsuario::new();
    let yo = s("ana");
    let (v, _) = h.mensaje_del_cliente(&yo, MensajePCA::Aceptar).unwrap();
    assert_eq!(v, vec![MensajeServidor::AceptarLlamada(s("momentaneo"))]);
    h.mensaje_del_servidor(&yo, MensajeUsuario::LlamadaEntrante(s("beto"))).unwrap();
    let (v, _) = h.mensaje_del_cliente(&yo, MensajePCA::Offer(s("sdp"))).unwrap();
    assert_eq!(v, vec![MensajeServidor::EnviarOffer(s("beto"), s("sdp"))]);
    let (v, _) = h.mensaje_del_cliente(&yo, MensajePCA::Answer(s("ans"))).unwrap();
    assert_eq!(v, vec![MensajeServidor::EnviarAnswer(s("ana"), s("beto"), s("ans"))]);
    let (v, _) = h.mensaje_del_cliente(&yo, MensajePCA::Rechazo).unwrap();
    assert_eq!(v, vec![MensajeServidor::RechazarLlamada(s("beto"))]);
    assert_eq!(h.usuario_procesando_llamada(), None);
    let (v, _) = h.mensaje_del_cliente(&yo, MensajePCA::Cortar).unwrap();
    assert_eq!(v, vec![MensajeServidor::EstadoDisponible(s("ana"))]);
    let (v, seguir) = h.mensaje_del_cliente(&yo, MensajePCA::Salir).unwrap();
    assert_eq!(v, vec![MensajeServidor::Desconectarse(s("ana"))]);
    assert!(!seguir);
    assert_eq!(
        h.mensaje_del_cliente(&yo, MensajePCA::Registrado).unwrap_err(),
        ErrorUsuario::MensajeFueraDeContexto
    );
}

#[test]
fn avisos_del_servidor_al_cliente() {
    let mut h = HandlerUsuario::new();
    let yo = s("ana");
    let (a, _) = h.mensaje_del_servidor(&yo, MensajeUsuario::LlamadaEntrante(s("beto"))).unwrap();
    assert_eq!(
        a,
        vec![AccionHandler::AlCliente(
            MensajePCA::Llamando(s("beto")),
            SiFalla::Avisar(vec![
                MensajeServidor::Desconectarse(s("ana")),
                MensajeServidor::RechazarLlamada(s("beto")),
            ])
        )]
    );
    let (a, _) = h.mensaje_del_servidor(&yo, MensajeUsuario::LlamadaRechazada).unwrap();
    assert_eq!(
        a,
        vec![AccionHandler::AlCliente(
            MensajePCA::Rechazo,
            SiFalla::Avisar(vec![MensajeServidor::Desconectarse(s("ana"))])
        )]
    );
    assert_eq!(h.usuario_procesando_llamada(), None);
    let (a, _) = h
        .mensaje_del_servidor(
            &yo,
            MensajeUsuario::ActualizarEstadoUsuario(s("caro"), EstadoUsuario::Ocupado),
        )
        .unwrap();
    assert_eq!(
        a,
        vec![AccionHandler::AlCliente(
            MensajePCA::UsuarioEstado(UsuarioPCA::new(s("caro"), EstadoUsuarioPCA::Ocupado)),
            SiFalla::Avisar(vec![MensajeServidor::Desconectarse(s("ana"))])
        )]
    );
    let (a, _) = h
        .mensaje_del_servidor(
            &yo,
            MensajeUsuario::EstadoUsuarios(vec![(s("beto"), EstadoUsuario::Disponible)]),
        )
        .unwrap();
    assert_eq!(
        a,
        vec![AccionHandler::AlCliente(
            MensajePCA::Usuarios(vec![UsuarioPCA::new(s("beto"), EstadoUsuarioPCA::Disponible)]),
            SiFalla::Avisar(vec![MensajeServidor::Desconectarse(s("ana"))])
        )]
    );
    let (a, _) = h.mensaje_del_servidor(&yo, MensajeUsuario::PedirAnswer(s("o"))).unwrap();
    assert_eq!(
        a,
        vec![AccionHandler::AlCliente(
            MensajePCA::Offer(s("o")),
            SiFalla::Error(ErrorUsuario::EnviandoMensajeUsuarioPorStream)
        )]
    );
    let (a, seguir) = h.mensaje_del_servidor(&yo, MensajeUsuario::Exito).unwrap();
    assert_eq!(a, vec![AccionHandler::AlCliente(MensajePCA::Salio, SiFalla::Ignorar)]);
    assert!(!seguir);
    assert_eq!(
        h.mensaje_del_servidor(&yo, MensajeUsuario::Error(s("e"))).unwrap_err(),
        ErrorUsuario::MensajeFueraDeContexto
    );
}

#[test]
fn estado_pca_desde_estado_del_servidor() {
    assert_eq!(EstadoUsuarioPCA::from(EstadoUsuario::Disponible), EstadoUsuarioPCA::Disponible);
    assert_eq!(EstadoUsuarioPCA::from(EstadoUsuario::Ocupado), EstadoUsuarioPCA::Ocupado);
    assert_eq!(
        EstadoUsuarioPCA::from(EstadoUsuario::Desconectado),
        EstadoUsuarioPCA::Desconectado
    );
}
