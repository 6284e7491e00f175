use room_rtc_2c_25::servidor_utils::estado_usuario::EstadoUsuario;
use room_rtc_2c_25::servidor_utils::mensajes::{Accion, MensajeServidor, MensajeUsuario};
use room_rtc_2c_25::servidor_utils::persistencia::parsear_usuarios;
use room_rtc_2c_25::servidor_utils::servidor_central::ServidorCentral;
use std::collections::{HashMap, VecDeque};

/// Servidor con una cola de mensajes recibidos por cada conexión, y el
/// contenido del archivo de usuarios.
struct Red {
    servidor: ServidorCentral,
    colas: HashMap<u64, VecDeque<MensajeUsuario>>,
    archivo: String,
}

impl Red {
    /// Servidor con los usuarios del contenido del archivo dado.
    fn con_archivo(contenido: &str, limite: usize) -> Red {
        Red {
            servidor: ServidorCentral::crear(limite, parsear_usuarios(contenido)),
            colas: HashMap::new(),
            archivo: contenido.to_string(),
        }
    }

    /// Procesa un mensaje hasta el final; ningún envío falla.
    fn enviar(&mut self, mensaje: MensajeServidor) {
        let mut lote = self.servidor.procesar_mensaje(mensaje);
        while !lote.is_empty() {
            for accion in &lote {
                match accion {
                    Accion::Enviar(c, m) => self.colas.entry(*c).or_default().push_back(m.clone()),
                    Accion::Persistir(u, p) => self.archivo.push_str(&format!("{};{}\n", u, p)),
                }
            }
            let fallidos = vec![false; lote.len()];
            lote = self.servidor.resultado_envios(&fallidos).expect("el servidor sigue");
        }
    }

    /// Próximo mensaje recibido por la conexión.
    fn recibir(&mut self, conexion: u64) -> MensajeUsuario {
        self.colas
            .get_mut(&conexion)
            .and_then(|c| c.pop_front())
            .expect("Fallo al recibir respuesta de servidor central")
    }
}

fn s(x: &str) -> String {
    x.to_string()
}

fn contenido(usuarios: &[(&str, &str)], con_salto: bool) -> String {
    let mut buffer = String::new();
    for (nombre, pass) in usuarios {
        buffer.push_str(&format!("{};{}", nombre, pass));
        if con_salto {
            buffer.push('\n');
        }
    }
    buffer.push('\n');
    buffer
}

/// Estados de una respuesta `EstadoUsuarios`, sin importar el orden.
fn estados(m: MensajeUsuario) -> HashMap<String, EstadoUsuario> {
    match m {
        MensajeUsuario::EstadoUsuarios(l) => l.into_iter().collect(),
        otro => panic!("se esperaba EstadoUsuarios y llegó {:?}", otro),
    }
}

fn mapa(pares: &[(&str, EstadoUsuario)]) -> HashMap<String, EstadoUsuario> {
    pares.iter().map(|(u, e)| (s(u), *e)).collect()
}

const DOS: [(&str, &str); 2] = [("melaniegl", "radiohead"), ("larita", "mafalda424")];
const CUATRO: [(&str, &str); 4] = [
    ("melaniegl", "radiohead"),
    ("larita", "mafalda424"),
    ("tomiTo", "futbol2004"),
    ("superCreativa", "maniConChocolate"),
];

/// Se loguea `melaniegl` por la conexión 2 y recibe los estados de los demás.
fn loguear_melanie(red: &mut Red) {
    red.enviar(MensajeServidor::Loguear(s("melaniegl"), s("radiohead"), 2));
    assert_eq!(red.recibir(2), MensajeUsuario::Exito);
    assert_eq!(estados(red.recibir(2)), mapa(&[("larita", EstadoUsuario::Desconectado)]));
}

/// Se registra `dynamo` por la conexión 1 y se avisa a `melaniegl`.
fn registrar_dynamo(red: &mut Red) {
    red.enviar(MensajeServidor::Registrar(s("dynamo"), s("amoeba"), 1));
    assert_eq!(red.recibir(1), MensajeUsuario::Exito);
    assert_eq!(
        red.recibir(2),
        MensajeUsuario::ActualizarEstadoUsuario(s("dynamo"), EstadoUsuario::Desconectado)
    );
}

/// Se loguea `dynamo` por la conexión 1.
fn loguear_dynamo(red: &mut Red) {
    red.enviar(MensajeServidor::Loguear(s("dynamo"), s("amoeba"), 1));
    assert_eq!(red.recibir(1), MensajeUsuario::Exito);
    assert_eq!(
        estados(red.recibir(1)),
        mapa(&[("larita", EstadoUsuario::Desconectado), ("melaniegl", EstadoUsuario::Disponible)])
    );
    assert_eq!(
        red.recibir(2),
        MensajeUsuario::ActualizarEstadoUsuario(s("dynamo"), EstadoUsuario::Disponible)
    );
}

#[test]
fn test_comprobar_funcionamiento_persistir_usuario() {
    let mut red = Red::con_archivo("", 15);
    red.enviar(MensajeServidor::Registrar(s("meujeje"), s("manuelitaViviaEnPehuajo"), 1));
    assert_eq!(red.recibir(1), MensajeUsuario::Exito);
    assert_eq!(red.archivo, "meujeje;manuelitaViviaEnPehuajo\n");
}

#[test]
fn test01_se_crea_servidor_central_archivo_usuarios_vacio() {
    let red = Red::con_archivo("", 15);
    assert_eq!(red.servidor.cantidad_registrados(), 0);
    assert_eq!(red.servidor.cantidad_estados(), 0);
    assert_eq!(red.servidor.cantidad_conectados(), 0);
    assert_eq!(red.servidor.cantidad_disponibles(), 0);
}

#[test]
fn test02_se_crea_servidor_central_archivo_con_un_usuario() {
    let red = Red::con_archivo(&contenido(&[("melaniegl", "radiohead")], true), 15);
    assert_eq!(red.servidor.cantidad_registrados(), 1);
    assert_eq!(red.servidor.cantidad_estados(), 1);
    assert_eq!(red.servidor.cantidad_conectados(), 0);
    assert_eq!(red.servidor.cantidad_disponibles(), 0);
    assert_eq!(red.servidor.contrasenia_de("melaniegl"), Some(s("radiohead")));
    assert_eq!(
        red.servidor.estado_de_usuario(&s("melaniegl")),
        Some(EstadoUsuario::Desconectado)
    );
}

#[test]
fn test03_se_crea_servidor_central_archivo_con_varios_usuarios() {
    let red = Red::con_archivo(&contenido(&CUATRO, true), 15);
    assert_eq!(red.servidor.cantidad_registrados(), 4);
    assert_eq!(red.servidor.cantidad_conectados(), 0);
    assert_eq!(red.servidor.cantidad_disponibles(), 0);
    for (nombre, pass) in CUATRO {
        assert_eq!(red.servidor.contrasenia_de(nombre), Some(s(pass)));
        assert_eq!(
            red.servidor.estado_de_usuario(&s(nombre)),
            Some(EstadoUsuario::Desconectado)
        );
    }
}

#[test]
fn test04_fallo_se_quiere_registrar_usuario_existente() {
    let mut red = Red::con_archivo(&contenido(&[("melaniegl", "radiohead")], false), 15);
    assert_eq!(red.servidor.contrasenia_de("melaniegl"), Some(s("radiohead")));
    red.enviar(MensajeServidor::Registrar(s("melaniegl"), s("meuDeuManito"), 1));
    assert_eq!(red.recibir(1), MensajeUsuario::Error(s("Nombre usuario no disponible")));
}

#[test]
fn test04b_fallo_se_quiere_registrar_usuario_invalido() {
    let mut red = Red::con_archivo(&contenido(&[("melaniegl", "radiohead")], false), 15);
    assert_eq!(red.servidor.contrasenia_de("melaniegl"), Some(s("radiohead")));
    red.enviar(MensajeServidor::Registrar(s("    "), s("meuDeuManito"), 1));
    assert_eq!(red.recibir(1), MensajeUsuario::Error(s("Usuario invalido")));
}

#[test]
fn test05_fallo_contrasenia_invalida() {
    let mut red = Red::con_archivo("", 15);
    red.enviar(MensajeServidor::Registrar(s("mirkito"), s(" "), 1));
    assert_eq!(red.recibir(1), MensajeUsuario::Error(s("Contraseña invalida")));
}

#[test]
fn test06_registro_usuario_valido() {
    let mut red = Red::con_archivo("", 15);
    red.enviar(MensajeServidor::Registrar(s("dynamo"), s("manuelitaViviaEnPehuajo"), 1));
    assert_eq!(red.recibir(1), MensajeUsuario::Exito);
}

#[test]
fn test07_fallo_logueo_usuario_inexistente() {
    let mut red = Red::con_archivo(&contenido(&CUATRO, true), 15);
    red.enviar(MensajeServidor::Loguear(s("dynamo"), s("soda1990"), 1));
    assert_eq!(red.recibir(1), MensajeUsuario::Error(s("Nombre usuario inexistente")));
}

#[test]
fn test08_fallo_logueo_usuario_contrasenia_invalida() {
    let mut red = Red::con_archivo(&contenido(&CUATRO, true), 15);
    red.enviar(MensajeServidor::Loguear(s("melaniegl"), s("theSmiths"), 1));
    assert_eq!(red.recibir(1), MensajeUsuario::Error(s("Contraseña incorrecta")));
}

#[test]
fn test09_se_loguea_usuario() {
    let mut red = Red::con_archivo(&contenido(&DOS, true), 15);
    loguear_melanie(&mut red);
}

#[test]
fn test09b_se_loguea_usuario_otro_no_puede_loguearse_con_ese_usuario() {
    let mut red = Red::con_archivo(&contenido(&DOS, true), 15);
    loguear_melanie(&mut red);
    red.enviar(MensajeServidor::Loguear(s("melaniegl"), s("radiohead"), 3));
    assert_eq!(red.recibir(3), MensajeUsuario::Error(s("Usuario ya logueado")));
}

#[test]
fn test10_se_notifica_usuarios_disponibles_sobre_nuevo_usuario() {
    let mut red = Red::con_archivo(&contenido(&DOS, true), 15);
    loguear_melanie(&mut red);
    registrar_dynamo(&mut red);
}

#[test]
fn test11_se_notifica_usuarios_disponibles_sobre_nuevo_usuario() {
    let mut red = Red::con_archivo(&contenido(&DOS, true), 15);
    loguear_melanie(&mut red);
    registrar_dynamo(&mut red);
}

#[test]
fn test12_se_rechaza_llamada_si_usuario_no_disponible() {
    let mut red = Red::con_archivo(&contenido(&DOS, true), 15);
    loguear_melanie(&mut red);
    registrar_dynamo(&mut red);
    red.enviar(MensajeServidor::Llamar(s("melaniegl"), s("dynamo")));
    assert_eq!(red.recibir(2), MensajeUsuario::LlamadaRechazada);
}

#[test]
fn test13_se_llama_a_otro_usuario_flujo_completo() {
    let mut red = Red::con_archivo(&contenido(&DOS, true), 15);
    loguear_melanie(&mut red);
    registrar_dynamo(&mut red);
    loguear_dynamo(&mut red);

    red.enviar(MensajeServidor::Llamar(s("melaniegl"), s("dynamo")));
    assert_eq!(red.recibir(1), MensajeUsuario::LlamadaEntrante(s("melaniegl")));

    red.enviar(MensajeServidor::AceptarLlamada(s("melaniegl")));
    assert_eq!(red.recibir(2), MensajeUsuario::PedirOffer);

    red.enviar(MensajeServidor::EnviarOffer(s("dynamo"), s("datita offer")));
    assert_eq!(red.recibir(1), MensajeUsuario::PedirAnswer(s("datita offer")));

    red.enviar(MensajeServidor::EnviarAnswer(s("melaniegl"), s("dynamo"), s("datita answer")));
    assert_eq!(red.recibir(1), MensajeUsuario::EnviarAnswer(s("datita answer")));

    red.enviar(MensajeServidor::EstadoDisponible(s("dynamo")));
    assert_eq!(
        estados(red.recibir(1)),
        mapa(&[("larita", EstadoUsuario::Desconectado), ("melaniegl", EstadoUsuario::Ocupado)])
    );

    red.enviar(MensajeServidor::EstadoDisponible(s("melaniegl")));
    assert_eq!(
        estados(red.recibir(2)),
        mapa(&[("larita", EstadoUsuario::Desconectado), ("dynamo", EstadoUsuario::Disponible)])
    );
    assert_eq!(
        red.recibir(1),
        MensajeUsuario::ActualizarEstadoUsuario(s("melaniegl"), EstadoUsuario::Disponible)
    );

    red.enviar(MensajeServidor::Desconectarse(s("dynamo")));
    assert_eq!(
        red.recibir(2),
        MensajeUsuario::ActualizarEstadoUsuario(s("dynamo"), EstadoUsuario::Desconectado)
    );
    assert_eq!(red.recibir(1), MensajeUsuario::Exito);

    red.enviar(MensajeServidor::Desconectarse(s("melaniegl")));
    assert_eq!(red.recibir(2), MensajeUsuario::Exito);
}

#[test]
fn test14_usuario_rechaza_llamada_entrante() {
    let mut red = Red::con_archivo(&contenido(&DOS, true), 15);
    loguear_melanie(&mut red);
    registrar_dynamo(&mut red);
    loguear_dynamo(&mut red);

    red.enviar(MensajeServidor::Llamar(s("melaniegl"), s("dynamo")));
    assert_eq!(red.recibir(1), MensajeUsuario::LlamadaEntrante(s("melaniegl")));

    red.enviar(MensajeServidor::RechazarLlamada(s("melaniegl")));
    assert_eq!(red.recibir(2), MensajeUsuario::LlamadaRechazada);
}

#[test]
fn test15_usuario_no_puede_conectarse_si_se_alcanza_maximo_conectados() {
    let mut red = Red::con_archivo(&contenido(&DOS, true), 1);
    loguear_melanie(&mut red);
    red.enviar(MensajeServidor::Loguear(s("larita"), s("mafalda424"), 1));
    assert_eq!(red.recibir(1), MensajeUsuario::Error(s("No hay lugar para una nueva conexion")));
}

#[test]
fn test16_usuario_puede_conectarse_si_se_desconecta_otro() {
    let mut red = Red::con_archivo(&contenido(&DOS, true), 1);
    loguear_melanie(&mut red);
    red.enviar(MensajeServidor::Loguear(s("larita"), s("mafalda424"), 1));
    assert_eq!(red.recibir(1), MensajeUsuario::Error(s("No hay lugar para una nueva conexion")));

    red.enviar(MensajeServidor::Desconectarse(s("melaniegl")));
    assert_eq!(red.recibir(2), MensajeUsuario::Exito);

    red.enviar(MensajeServidor::Loguear(s("larita"), s("mafalda424"), 1));
    assert_eq!(red.recibir(1), MensajeUsuario::Exito);
    assert_eq!(estados(red.recibir(1)), mapa(&[("melaniegl", EstadoUsuario::Desconectado)]));
}
