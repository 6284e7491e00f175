use room_rtc_2c_25::utils_config::{
    procesar_linea, procesar_lineas, validar_archivo, verificar_existencia_clave, Configuracion,
};

#[test]
fn procesar_linea_guarda_clave_y_valor_recortados() {
    let mut config = Configuracion::new();
    assert!(procesar_linea(&mut config, " puerto :  8080 ", 1).is_ok());
    assert_eq!(config.obtener("puerto"), Some("8080".to_string()));
    // sólo el primer ':' separa
    assert!(procesar_linea(&mut config, "direccion: 127.0.0.1:3000", 2).is_ok());
    assert_eq!(config.obtener("direccion"), Some("127.0.0.1:3000".to_string()));
}

#[test]
fn procesar_linea_sin_separador_es_error_de_formato() {
    let mut config = Configuracion::new();
    assert_eq!(
        procesar_linea(&mut config, "puerto 8080", 12).unwrap_err(),
        "Formato incorrecto en la línea 12: 'puerto 8080'. Se esperaba 'clave: valor'."
    );
}

#[test]
fn procesar_linea_con_valor_vacio_es_error_de_formato() {
    let mut config = Configuracion::new();
    assert_eq!(
        procesar_linea(&mut config, "puerto:   ", 3).unwrap_err(),
        "Formato incorrecto en la línea 3: 'puerto:   '. Se esperaba 'clave: valor'."
    );
    assert_eq!(config.obtener("puerto"), None);
}

#[test]
fn procesar_linea_con_clave_duplicada() {
    let mut config = Configuracion::new();
    procesar_linea(&mut config, "puerto: 1", 1).unwrap();
    assert_eq!(
        procesar_linea(&mut config, "puerto: 2", 105).unwrap_err(),
        "Clave duplicada 'puerto' en línea 105"
    );
    assert_eq!(config.obtener("puerto"), Some("1".to_string()));
}

#[test]
fn procesar_lineas_ignora_vacias_y_comentarios() {
    let lineas: Vec<String> = vec![
        "# comentario".to_string(),
        "".to_string(),
        "  ".to_string(),
        "ip: 10.0.0.1".to_string(),
        "  # otro".to_string(),
        "puerto: 9000".to_string(),
    ];
    let config = procesar_lineas(&lineas).unwrap();
    assert_eq!(verificar_existencia_clave(&config, "ip").unwrap(), "10.0.0.1");
    assert_eq!(verificar_existencia_clave(&config, "puerto").unwrap(), "9000");
}

#[test]
fn procesar_lineas_informa_el_numero_de_la_linea_erronea() {
    let lineas: Vec<String> = vec!["# c".to_string(), "ip: 1".to_string(), "mal".to_string()];
    assert_eq!(
        procesar_lineas(&lineas).err().unwrap(),
        "Formato incorrecto en la línea 3: 'mal'. Se esperaba 'clave: valor'."
    );
}

#[test]
fn verificar_clave_inexistente() {
    let config = Configuracion::new();
    assert_eq!(
        verificar_existencia_clave(&config, "usuario").unwrap_err(),
        "La clave 'usuario' no fue encontrada dentro del archivo de configuración."
    );
}

#[test]
fn validar_archivo_inexistente_informa_la_ruta() {
    assert_eq!(validar_archivo("conf/servidor.conf", true), Ok(()));
    assert_eq!(
        validar_archivo("no/esta.conf", false).unwrap_err(),
        "El archivo de configuración 'no/esta.conf' no existe."
    );
}
