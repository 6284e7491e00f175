use room_rtc_2c_25::servidor_utils::error::ErrorServidorCentral;
use room_rtc_2c_25::servidor_utils::estado_usuario::EstadoUsuario;
use room_rtc_2c_25::servidor_utils::mensajes::{Accion, MensajeServidor, MensajeUsuario};
use room_rtc_2c_25::servidor_utils::servidor_central::ServidorCentral;

fn s(x: &str) -> String {
    x.to_string()
}

/// Procesa un mensaje y todos los lotes siguientes; las acciones dirigidas a
/// las conexiones de `caidas` fallan. Devuelve todas las acciones, en orden.
fn procesar(servidor: &mut ServidorCentral, mensaje: MensajeServidor, caidas: &[u64]) -> Vec<Accion> {
    let mut todas = Vec::new();
    let mut lote = servidor.procesar_mensaje(mensaje);
    while !lote.is_empty() {
        let fallidos: Vec<bool> = lote
            .iter()
            .map(|a| match a {
                Accion::Enviar(c, _) => caidas.contains(c),
                Accion::Persistir(_, _) => false,
            })
            .collect();
        todas.extend(lote.iter().cloned());
        lote = servidor.resultado_envios(&fallidos).expect("el servidor no debería detenerse");
    }
    todas
}

fn mensajes_a(acciones: &[Accion], conexion: u64) -> Vec<MensajeUsuario> {
    acciones
        .iter()
        .filter_map(|a| match a {
            Accion::Enviar(c, m) if *c == conexion => Some(m.clone()),
            _ => None,
        })
        .collect()
}

fn servidor_con(usuarios: &[(&str, &str)], limite: usize) -> ServidorCentral {
    let lista = usuarios.iter().map(|(u, p)| (s(u), s(p))).collect();
    ServidorCentral::crear(limite, lista)
}

#[test]
fn registro_con_usuario_vacio_es_invalido() {
    let mut srv = servidor_con(&[], 10);
    let acciones = procesar(&mut srv, MensajeServidor::Registrar(s("   "), s("clave"), 1), &[]);
    assert_eq!(acciones, vec![Accion::Enviar(1, MensajeUsuario::Error(s("Usuario invalido")))]);
}

#[test]
fn registro_de_usuario_existente_falla() {
    let mut srv = servidor_con(&[("ana", "1")], 10);
    let acciones = procesar(&mut srv, MensajeServidor::Registrar(s(" ana "), s("2"), 1), &[]);
    assert_eq!(
        acciones,
        vec![Accion::Enviar(1, MensajeUsuario::Error(s("Nombre usuario no disponible")))]
    );
}

#[test]
fn registro_con_contrasenia_vacia_falla() {
    let mut srv = servidor_con(&[], 10);
    let acciones = procesar(&mut srv, MensajeServidor::Registrar(s("ana"), s(" \t"), 1), &[]);
    assert_eq!(acciones, vec![Accion::Enviar(1, MensajeUsuario::Error(s("Contraseña invalida")))]);
}

#[test]
fn registro_valido_responde_exito_y_pide_guardar() {
    let mut srv = servidor_con(&[], 10);
    let acciones = procesar(&mut srv, MensajeServidor::Registrar(s(" ana "), s(" pw "), 1), &[]);
    assert_eq!(
        acciones,
        vec![Accion::Enviar(1, MensajeUsuario::Exito), Accion::Persistir(s("ana"), s("pw"))]
    );
    // ya registrado: se puede iniciar sesión con la contraseña recortada
    let login = procesar(&mut srv, MensajeServidor::Loguear(s("ana"), s("pw"), 2), &[]);
    assert_eq!(login[0], Accion::Enviar(2, MensajeUsuario::Exito));
}

#[test]
fn si_falla_guardar_el_usuario_el_servidor_se_detiene() {
    let mut srv = servidor_con(&[], 10);
    let lote = srv.procesar_mensaje(MensajeServidor::Registrar(s("ana"), s("pw"), 1));
    assert_eq!(lote.len(), 2);
    let r = srv.resultado_envios(&vec![false, true]);
    assert!(matches!(r, Err(ErrorServidorCentral::ErrorPersistiendoUsuario)));
}

#[test]
fn login_con_usuario_inexistente_o_contrasenia_incorrecta() {
    let mut srv = servidor_con(&[("ana", "pw")], 10);
    let a = procesar(&mut srv, MensajeServidor::Loguear(s("beto"), s("pw"), 1), &[]);
    assert_eq!(a, vec![Accion::Enviar(1, MensajeUsuario::Error(s("Nombre usuario inexistente")))]);
    let b = procesar(&mut srv, MensajeServidor::Loguear(s("ana"), s("otra"), 1), &[]);
    assert_eq!(b, vec![Accion::Enviar(1, MensajeUsuario::Error(s("Contraseña incorrecta")))]);
}

#[test]
fn login_exitoso_envia_estado_de_los_demas_y_avisa_a_disponibles() {
    let mut srv = servidor_con(&[("ana", "1"), ("beto", "2"), ("caro", "3")], 10);
    let a = procesar(&mut srv, MensajeServidor::Loguear(s("ana"), s("1"), 1), &[]);
    assert_eq!(
        a,
        vec![
            Accion::Enviar(1, MensajeUsuario::Exito),
            Accion::Enviar(
                1,
                MensajeUsuario::EstadoUsuarios(vec![
                    (s("beto"), EstadoUsuario::Desconectado),
                    (s("caro"), EstadoUsuario::Desconectado),
                ])
            ),
        ]
    );
    let b = procesar(&mut srv, MensajeServidor::Loguear(s("beto"), s("2"), 2), &[]);
    assert_eq!(
        mensajes_a(&b, 1),
        vec![MensajeUsuario::ActualizarEstadoUsuario(s("beto"), EstadoUsuario::Disponible)]
    );
    assert_eq!(b[0], Accion::Enviar(2, MensajeUsuario::Exito));
}

#[test]
fn usuario_ya_logueado_no_puede_volver_a_entrar() {
    let mut srv = servidor_con(&[("ana", "1")], 10);
    procesar(&mut srv, MensajeServidor::Loguear(s("ana"), s("1"), 1), &[]);
    let a = procesar(&mut srv, MensajeServidor::Loguear(s("ana"), s("1"), 2), &[]);
    assert_eq!(a, vec![Accion::Enviar(2, MensajeUsuario::Error(s("Usuario ya logueado")))]);
}

#[test]
fn no_se_supera_el_limite_de_conectados_y_se_libera_al_desconectarse() {
    let mut srv = servidor_con(&[("ana", "1"), ("beto", "2")], 1);
    procesar(&mut srv, MensajeServidor::Loguear(s("ana"), s("1"), 1), &[]);
    let b = procesar(&mut srv, MensajeServidor::Loguear(s("beto"), s("2"), 2), &[]);
    assert_eq!(
        b,
        vec![Accion::Enviar(2, MensajeUsuario::Error(s("No hay lugar para una nueva conexion")))]
    );
    let d = procesar(&mut srv, MensajeServidor::Desconectarse(s("ana")), &[]);
    assert_eq!(d, vec![Accion::Enviar(1, MensajeUsuario::Exito)]);
    let b2 = procesar(&mut srv, MensajeServidor::Loguear(s("beto"), s("2"), 2), &[]);
    assert_eq!(b2[0], Accion::Enviar(2, MensajeUsuario::Exito));
}

#[test]
fn llamada_a_usuario_no_disponible_se_rechaza() {
    let mut srv = servidor_con(&[("ana", "1"), ("beto", "2")], 10);
    procesar(&mut srv, MensajeServidor::Loguear(s("ana"), s("1"), 1), &[]);
    let a = procesar(&mut srv, MensajeServidor::Llamar(s("ana"), s("beto")), &[]);
    assert_eq!(a, vec![Accion::Enviar(1, MensajeUsuario::LlamadaRechazada)]);
    let b = procesar(&mut srv, MensajeServidor::Llamar(s("ana"), s("ana")), &[]);
    assert_eq!(b, vec![Accion::Enviar(1, MensajeUsuario::LlamadaRechazada)]);
}

#[test]
fn flujo_completo_de_una_llamada() {
    let mut srv = servidor_con(&[("ana", "1"), ("beto", "2"), ("caro", "3")], 10);
    procesar(&mut srv, MensajeServidor::Loguear(s("ana"), s("1"), 1), &[]);
    procesar(&mut srv, MensajeServidor::Loguear(s("beto"), s("2"), 2), &[]);
    procesar(&mut srv, MensajeServidor::Loguear(s("caro"), s("3"), 3), &[]);

    let a = procesar(&mut srv, MensajeServidor::Llamar(s("ana"), s("beto")), &[]);
    assert_eq!(a, vec![Accion::Enviar(2, MensajeUsuario::LlamadaEntrante(s("ana")))]);

    let b = procesar(&mut srv, MensajeServidor::AceptarLlamada(s("ana")), &[]);
    assert_eq!(b, vec![Accion::Enviar(1, MensajeUsuario::PedirOffer)]);

    let c = procesar(&mut srv, MensajeServidor::EnviarOffer(s("beto"), s("offer")), &[]);
    assert_eq!(c, vec![Accion::Enviar(2, MensajeUsuario::PedirAnswer(s("offer")))]);

    let d = procesar(
        &mut srv,
        MensajeServidor::EnviarAnswer(s("beto"), s("ana"), s("answer")),
        &[],
    );
    assert_eq!(d[0], Accion::Enviar(1, MensajeUsuario::EnviarAnswer(s("answer"))));
    assert_eq!(
        mensajes_a(&d, 3),
        vec![
            MensajeUsuario::ActualizarEstadoUsuario(s("beto"), EstadoUsuario::Ocupado),
            MensajeUsuario::ActualizarEstadoUsuario(s("ana"), EstadoUsuario::Ocupado),
        ]
    );
    assert!(mensajes_a(&d, 2).is_empty());

    // beto ya no está disponible: llamarlo se rechaza
    let e = procesar(&mut srv, MensajeServidor::Llamar(s("caro"), s("beto")), &[]);
    assert_eq!(e, vec![Accion::Enviar(3, MensajeUsuario::LlamadaRechazada)]);

    // al cortar, ana vuelve a estar disponible y se avisa a caro
    let f = procesar(&mut srv, MensajeServidor::EstadoDisponible(s("ana")), &[]);
    assert!(matches!(&f[0], Accion::Enviar(1, MensajeUsuario::EstadoUsuarios(_))));
    assert_eq!(
        mensajes_a(&f, 3),
        vec![MensajeUsuario::ActualizarEstadoUsuario(s("ana"), EstadoUsuario::Disponible)]
    );
}

#[test]
fn usuario_rechaza_llamada_entrante() {
    let mut srv = servidor_con(&[("ana", "1"), ("beto", "2")], 10);
    procesar(&mut srv, MensajeServidor::Loguear(s("ana"), s("1"), 1), &[]);
    procesar(&mut srv, MensajeServidor::Loguear(s("beto"), s("2"), 2), &[]);
    procesar(&mut srv, MensajeServidor::Llamar(s("ana"), s("beto")), &[]);
    let r = procesar(&mut srv, MensajeServidor::RechazarLlamada(s("ana")), &[]);
    assert_eq!(r, vec![Accion::Enviar(1, MensajeUsuario::LlamadaRechazada)]);
}

#[test]
fn quien_no_recibe_un_aviso_queda_desconectado_y_se_avisa_al_resto() {
    let mut srv = servidor_con(&[("ana", "1"), ("beto", "2"), ("caro", "3"), ("dani", "4")], 10);
    procesar(&mut srv, MensajeServidor::Loguear(s("ana"), s("1"), 1), &[]);
    procesar(&mut srv, MensajeServidor::Loguear(s("beto"), s("2"), 2), &[]);
    procesar(&mut srv, MensajeServidor::Loguear(s("caro"), s("3"), 3), &[]);
    // la conexión de beto se cayó: al avisar que dani entró, falla y se lo desconecta
    let a = procesar(&mut srv, MensajeServidor::Loguear(s("dani"), s("4"), 4), &[2]);
    assert_eq!(
        mensajes_a(&a, 1),
        vec![
            MensajeUsuario::ActualizarEstadoUsuario(s("dani"), EstadoUsuario::Disponible),
            MensajeUsuario::ActualizarEstadoUsuario(s("beto"), EstadoUsuario::Desconectado),
        ]
    );
    // beto ya no está conectado: puede volver a iniciar sesión
    let b = procesar(&mut srv, MensajeServidor::Loguear(s("beto"), s("2"), 5), &[]);
    assert_eq!(b[0], Accion::Enviar(5, MensajeUsuario::Exito));
}

#[test]
fn registro_avisa_a_los_disponibles_del_nuevo_usuario() {
    let mut srv = servidor_con(&[("ana", "1")], 10);
    procesar(&mut srv, MensajeServidor::Loguear(s("ana"), s("1"), 1), &[]);
    let r = procesar(&mut srv, MensajeServidor::Registrar(s("beto"), s("2"), 7), &[]);
    assert_eq!(
        r,
        vec![
            Accion::Enviar(7, MensajeUsuario::Exito),
            Accion::Persistir(s("beto"), s("2")),
            Accion::Enviar(1, MensajeUsuario::ActualizarEstadoUsuario(s("beto"), EstadoUsuario::Desconectado)),
        ]
    );
}

#[test]
fn codigos_de_estado() {
    assert_eq!(EstadoUsuario::Disponible.a_texto(), "DISP");
    assert_eq!(EstadoUsuario::Ocupado.a_texto(), "OCUP");
    assert_eq!(EstadoUsuario::Desconectado.a_texto(), "DESC");
}
