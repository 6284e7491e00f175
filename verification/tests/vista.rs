use room_rtc_2c_25::aplicacion::{EventoAplicacion, ImagenRGBA};
use room_rtc_2c_25::protocolos::pca::{EstadoUsuarioPCA, UsuarioPCA};
use room_rtc_2c_25::vista::pantallas::pantalla::{AccionPantalla, Pantalla};
use room_rtc_2c_25::vista::pantallas::pantalla_inicio::PantallaInicio;
use room_rtc_2c_25::vista::pantallas::pantalla_lobby::{puede_llamar, PantallaLobby};
use room_rtc_2c_25::vista::pantallas::pantalla_login::PantallaLogin;
use room_rtc_2c_25::vista::pantallas::pantalla_registro::PantallaRegistro;
use room_rtc_2c_25::vista::pantallas::utils::iconos::IconoApp;
use room_rtc_2c_25::vista::vista_mock::VistaMock;
use std::path::PathBuf;

fn usuario(nombre: &str, estado: EstadoUsuarioPCA) -> UsuarioPCA {
    UsuarioPCA::new(nombre.to_string(), estado)
}

#[test]
fn vista_mock_recuerda_los_eventos_informados() {
    let mut vista = VistaMock::default();
    assert!(!vista.se_informo_registro_exitoso());
    assert!(!vista.sesion_iniciada());
    vista.procesar_evento(EventoAplicacion::RegistroExitoso).unwrap();
    vista.procesar_evento(EventoAplicacion::SesionIniciada).unwrap();
    vista
        .procesar_evento(EventoAplicacion::UsuariosNuevos(vec![usuario(
            "ana",
            EstadoUsuarioPCA::Ocupado,
        )]))
        .unwrap();
    vista.procesar_evento(EventoAplicacion::EnviandoLlamada("ana".to_string())).unwrap();
    assert!(vista.se_informo_registro_exitoso());
    assert!(vista.se_informo_sesion_iniciada());
    assert!(vista.usuarios_actualizados());
    assert_eq!(vista.ultimos_usuarios(), vec![usuario("ana", EstadoUsuarioPCA::Ocupado)]);
    assert!(vista.se_informo_enviando_llamada("ana"));
    assert!(!vista.se_informo_enviando_llamada("beto"));
    assert!(!vista.se_informo_recibiendo_llamada("ana"));
    assert!(!vista.se_informo_llamada_iniciada());
}

#[test]
fn vista_mock_ignora_los_demas_eventos() {
    let mut vista = VistaMock::default();
    vista
        .procesar_evento(EventoAplicacion::NuevoFrame(ImagenRGBA {
            ancho: 1,
            alto: 1,
            pixeles: vec![0, 0, 0, 255],
        }))
        .unwrap();
    vista.procesar_evento(EventoAplicacion::ErrorDeRegistro("x".to_string())).unwrap();
    vista.procesar_evento(EventoAplicacion::MicrofonoMuteado).unwrap();
    assert!(!vista.se_informo_registro_exitoso());
    assert!(!vista.usuarios_actualizados());
    assert!(vista.ultimos_usuarios().is_empty());
}

#[test]
fn vista_mock_recibe_eventos_por_su_canal() {
    let mut vista = VistaMock::default();
    let tx = vista.obtener_sender_eventos();
    tx.send(EventoAplicacion::RecibiendoLlamada("carla".to_string())).unwrap();
    tx.send(EventoAplicacion::LlamadaIniciada).unwrap();
    vista.procesar_eventos();
    assert!(vista.se_informo_recibiendo_llamada("carla"));
    assert!(vista.se_informo_llamada_iniciada());
    tx.send(EventoAplicacion::RegistroExitoso).unwrap();
    assert!(vista.esperar_y_procesar_evento());
    assert!(vista.se_informo_registro_exitoso());
}

#[test]
fn pantalla_inicio_botones() {
    let p = PantallaInicio::default();
    assert_eq!(p.accion_botones(false, false), AccionPantalla::Ninguna);
    assert_eq!(p.accion_botones(true, false), AccionPantalla::IrALogin);
    assert_eq!(p.accion_botones(true, true), AccionPantalla::IrARegistro);
}

#[test]
fn pantalla_login_pide_usuario_y_contrasenia() {
    let mut p = PantallaLogin::default();
    assert_eq!(p.accion_botones(true, false), AccionPantalla::Ninguna);
    p.escribir_datos("ana".to_string(), String::new());
    assert_eq!(p.accion_botones(true, false), AccionPantalla::Ninguna);
    p.escribir_datos("ana".to_string(), "clave".to_string());
    assert_eq!(
        p.accion_botones(true, false),
        AccionPantalla::IntentarLogin("ana".to_string(), "clave".to_string())
    );
    assert_eq!(p.accion_botones(true, true), AccionPantalla::Volver);
    assert!(!p.error_iniciando_sesion());
    p.escuchar_evento(EventoAplicacion::RegistroExitoso);
    assert!(!p.error_iniciando_sesion());
    p.escuchar_evento(EventoAplicacion::ErrorIniciandoSesion("mal".to_string()));
    assert!(p.error_iniciando_sesion());
}

#[test]
fn pantalla_registro_recorta_y_reinicia_el_resultado() {
    let mut p = PantallaRegistro::default();
    p.escribir_datos("  ana ".to_string(), "\tclave\n".to_string());
    p.escuchar_evento(EventoAplicacion::ErrorDeRegistro("ya existe".to_string()));
    assert!(p.hay_error_registro());
    p.escuchar_evento(EventoAplicacion::RegistroExitoso);
    assert!(p.registro_exitoso());
    assert_eq!(p.accion_botones(false, true), AccionPantalla::Volver);
    assert!(p.registro_exitoso());
    assert_eq!(
        p.accion_botones(true, true),
        AccionPantalla::IntentarRegistro("ana".to_string(), "clave".to_string())
    );
    assert!(!p.registro_exitoso());
    assert!(!p.hay_error_registro());
    assert_eq!(p.accion_botones(false, false), AccionPantalla::Ninguna);
}

#[test]
fn pantalla_lobby_secuencia_de_inicio() {
    let mut p = PantallaLobby::default();
    assert_eq!(p.accion_tras_mostrar(AccionPantalla::CerrarSesion), AccionPantalla::PedirListaDeCamaras);
    // sin cámaras todavía, la acción del usuario pasa
    assert_eq!(p.accion_tras_mostrar(AccionPantalla::CerrarSesion), AccionPantalla::CerrarSesion);
    p.escuchar_evento(EventoAplicacion::NuevaListaDeCamarasDisponibles(vec![
        "cam0".to_string(),
        "cam1".to_string(),
    ]));
    assert_eq!(
        p.accion_tras_mostrar(AccionPantalla::Ninguna),
        AccionPantalla::CambiarCamara("cam0".to_string())
    );
    assert_eq!(p.accion_tras_mostrar(AccionPantalla::Ninguna), AccionPantalla::PedirUsuarios);
    assert_eq!(
        p.accion_tras_mostrar(AccionPantalla::Llamar("ana".to_string())),
        AccionPantalla::Llamar("ana".to_string())
    );
    assert_eq!(
        p.accion_tras_mostrar(AccionPantalla::EnviarArchivo(PathBuf::from("a.txt"))),
        AccionPantalla::EnviarArchivo(PathBuf::from("a.txt"))
    );
}

#[test]
fn pantalla_lobby_llamadas_y_camara() {
    let mut p = PantallaLobby::default();
    p.escuchar_evento(EventoAplicacion::EnviandoLlamada("ana".to_string()));
    p.escuchar_evento(EventoAplicacion::RecibiendoLlamada("beto".to_string()));
    assert_eq!(p.usuario_siendo_llamado(), Some("ana".to_string()));
    assert_eq!(p.usuario_llamandome(), Some("beto".to_string()));
    p.escuchar_evento(EventoAplicacion::LlamadaRechazada);
    assert_eq!(p.usuario_siendo_llamado(), None);
    assert_eq!(p.usuario_llamandome(), Some("beto".to_string()));
    p.escuchar_evento(EventoAplicacion::LlamadaExternaRechazada);
    assert_eq!(p.usuario_llamandome(), None);
    p.escuchar_evento(EventoAplicacion::NuevaCamaraEnUso("cam1".to_string()));
    assert_eq!(p.camara_actual(), "cam1");
}

#[test]
fn solo_se_llama_a_usuarios_disponibles() {
    assert!(puede_llamar(&usuario("ana", EstadoUsuarioPCA::Disponible)));
    assert!(!puede_llamar(&usuario("ana", EstadoUsuarioPCA::Ocupado)));
    assert!(!puede_llamar(&usuario("ana", EstadoUsuarioPCA::Desconectado)));
}

#[test]
fn colores_de_los_iconos() {
    assert_eq!(IconoApp::CortarLlamada.color_fondo(), Some((220, 50, 50)));
    assert_eq!(IconoApp::Llamar.color_fondo(), Some((0, 200, 0)));
    assert_eq!(IconoApp::AdjuntarArchivo.color_fondo(), Some((255, 187, 51)));
    assert_eq!(IconoApp::Usuario.color_fondo(), None);
}
