use room_rtc_2c_25::servidor_utils::persistencia::{parsear_usuarios, serializar_usuarios};
use room_rtc_2c_25::servidor_utils::registro_usuarios::RegistroUsuarios;
use std::collections::HashSet;

#[test]
fn test_registrar_y_autenticar() {
    let mut registro_usuarios = RegistroUsuarios::crear_registro_usuarios();
    assert!(registro_usuarios.registrar_usuario("alice", "pwd123").is_ok());
    assert!(registro_usuarios.autenticar_usuario("alice", "pwd123").is_ok());
    assert!(registro_usuarios.autenticar_usuario("alice", "wrong").is_err());
    assert!(registro_usuarios.autenticar_usuario("bob", "pwd123").is_err());
}

#[test]
fn test_registrar_duplicado() {
    let mut registro_usuarios = RegistroUsuarios::crear_registro_usuarios();
    assert!(registro_usuarios.registrar_usuario("eve", "secret").is_ok());
    let err = registro_usuarios.registrar_usuario("eve", "other").unwrap_err();
    assert_eq!(err, "El nombre de usuario ya existe");
    // la contraseña original no cambió
    assert!(registro_usuarios.autenticar_usuario("eve", "secret").is_ok());
}

#[test]
fn test_obtener_usuarios_y_info() {
    let mut registro_usuarios = RegistroUsuarios::crear_registro_usuarios();
    registro_usuarios.registrar_usuario("u1", "p1").unwrap();
    registro_usuarios.registrar_usuario("u2", "p2").unwrap();

    let usuarios = registro_usuarios.obtener_usuarios().unwrap();
    let set: HashSet<_> = usuarios.into_iter().collect();
    let expected: HashSet<_> = ["u1".to_string(), "u2".to_string()].into_iter().collect();
    assert_eq!(set, expected);

    let info = registro_usuarios.obtener_info_completa_usuarios_tuplas().unwrap();
    let info_set: HashSet<_> = info.into_iter().collect();
    let expected_info: HashSet<_> = vec![
        ("u1".to_string(), "p1".to_string()),
        ("u2".to_string(), "p2".to_string()),
    ]
    .into_iter()
    .collect();
    assert_eq!(info_set, expected_info);
}

#[test]
fn test_cargar_usuarios() {
    let mut registro_usuarios = RegistroUsuarios::crear_registro_usuarios();
    let datos = vec![
        ("a".to_string(), "1".to_string()),
        ("b".to_string(), "2".to_string()),
    ];
    assert!(registro_usuarios.cargar_usuarios(datos).is_ok());

    let info = registro_usuarios.obtener_info_completa_usuarios_tuplas().unwrap();
    let info_set: HashSet<_> = info.into_iter().collect();
    let expected: HashSet<_> = vec![
        ("a".to_string(), "1".to_string()),
        ("b".to_string(), "2".to_string()),
    ]
    .into_iter()
    .collect();
    assert_eq!(info_set, expected);
}

#[test]
fn cargar_usuarios_reemplaza_contrasenias() {
    let mut registro = RegistroUsuarios::crear_registro_usuarios();
    registro.registrar_usuario("a", "viejo").unwrap();
    registro
        .cargar_usuarios(vec![("a".to_string(), "nuevo".to_string())])
        .unwrap();
    assert!(registro.autenticar_usuario("a", "nuevo").is_ok());
    assert_eq!(
        registro.autenticar_usuario("a", "viejo").unwrap_err(),
        "Credenciales incorrectas"
    );
    assert_eq!(registro.obtener_usuarios().unwrap(), vec!["a".to_string()]);
}

#[test]
fn guardar_y_cargar_usuarios() {
    let usuarios_originales = vec![
        ("user1".to_string(), "pass1".to_string()),
        ("user2".to_string(), "pass2".to_string()),
    ];
    let contenido = serializar_usuarios(&usuarios_originales);
    let usuarios_cargados = parsear_usuarios(&contenido);
    assert_eq!(usuarios_originales, usuarios_cargados);
}

#[test]
fn guardar_sobrescribe_archivo_existente() {
    let usuarios_nuevos = vec![("nuevo".to_string(), "clave".to_string())];
    assert_eq!(serializar_usuarios(&usuarios_nuevos), "nuevo;clave\n");
}

#[test]
fn cargar_contenido_vacio_devuelve_vacio() {
    assert!(parsear_usuarios("").is_empty());
}

#[test]
fn lineas_mal_formadas_se_ignoran() {
    let contenido = "ana;1\nsin_separador\n  beto;2  \r\nx;y;z\n;\n";
    assert_eq!(
        parsear_usuarios(contenido),
        vec![
            ("ana".to_string(), "1".to_string()),
            ("beto".to_string(), "2".to_string()),
            ("".to_string(), "".to_string()),
        ]
    );
}
