use buscador_contenido_youtube::comentarios::validar_solicitud_comentarios;
use buscador_contenido_youtube::errores::{
    comprobar_estado, Documento, ErrorBuscador, Operacion, ERROR_INTERNO, PASARELA_INCORRECTA,
    SOLICITUD_INCORRECTA,
};
use buscador_contenido_youtube::modelos::{Argumentos, Entrada, Solicitud, Transcripcion};
use buscador_contenido_youtube::transcripcion::{
    recuperar_transcripcion, serializacion_imposible, validar_solicitud_transcripcion,
};

fn solicitud(busqueda: Option<&str>, piped: Option<&str>) -> Solicitud {
    Solicitud {
        url: "https://www.youtube.com/watch?v=x".to_string(),
        busqueda: busqueda.map(|s| s.to_string()),
        piped: piped.map(|s| s.to_string()),
    }
}

fn entrada(inicio: &str, texto: &str) -> Entrada {
    Entrada { inicio: inicio.to_string(), duracion: "1.5".to_string(), texto: texto.to_string() }
}

#[test]
fn argumentos_por_defecto() {
    assert_eq!(Argumentos::default().port, 8080);
}

#[test]
fn error_de_envio() {
    let e = ErrorBuscador::fallo_envio(Operacion::Transcripciones, "sin conexión");
    assert_eq!(e.estado, PASARELA_INCORRECTA);
    assert_eq!(
        e.mensaje,
        "ha fallado la petición a YouTube para buscar las transcripciones: sin conexión"
    );
    let e = ErrorBuscador::fallo_envio(Operacion::Comentarios, "timeout");
    assert_eq!(e.mensaje, "ha fallado la petición para recuperar comentarios timeout");
}

#[test]
fn error_de_cuerpo() {
    let e = ErrorBuscador::fallo_cuerpo(Operacion::IdentificadorYoutube, "corte");
    assert_eq!(e.estado, PASARELA_INCORRECTA);
    assert_eq!(
        e.mensaje,
        "no se ha podido recuperar la respuesta de la petición a YouTube para buscar el identificador: corte"
    );
}

#[test]
fn error_de_serializacion() {
    let e = ErrorBuscador::fallo_serializacion(Documento::Transcripcion, "xml roto");
    assert_eq!(e.estado, ERROR_INTERNO);
    assert_eq!(e.mensaje, "no se ha podido deserializar la transcripción solicitada: xml roto");
    let e = ErrorBuscador::fallo_serializacion(Documento::ComentariosRecuperados, "x");
    assert_eq!(e.mensaje, "ha fallado la serialización de los comentarios recuperados x");
}

#[test]
fn estado_correcto_e_incorrecto() {
    assert!(comprobar_estado(Operacion::Transcripcion, 200, "200 OK").is_ok());
    let e = comprobar_estado(Operacion::Transcripcion, 404, "404 Not Found").unwrap_err();
    assert_eq!(e.estado, PASARELA_INCORRECTA);
    assert_eq!(
        e.mensaje,
        "la petición a YouTube para la transcripción en el idioma indicado ha devuelto un status code incorrecto: 404 Not Found"
    );
    assert!(comprobar_estado(Operacion::Comentarios, 201, "201 Created").is_err());
}

#[test]
fn solicitud_de_transcripcion() {
    assert_eq!(validar_solicitud_transcripcion(&solicitud(Some("hola"), None)).unwrap(), "hola");
    let e = validar_solicitud_transcripcion(&solicitud(None, Some("p"))).unwrap_err();
    assert_eq!(e.estado, SOLICITUD_INCORRECTA);
    assert_eq!(e.mensaje, "se debe especificar un término de búsqueda");
}

#[test]
fn solicitud_de_comentarios() {
    let (busqueda, piped) = validar_solicitud_comentarios(&solicitud(Some("hola"), Some("https://p"))).unwrap();
    assert_eq!(busqueda, "hola");
    assert_eq!(piped, "https://p");
    let e = validar_solicitud_comentarios(&solicitud(None, None)).unwrap_err();
    assert_eq!(e.estado, SOLICITUD_INCORRECTA);
    assert_eq!(e.mensaje, "no se ha facilitado la base url de la API de Piped");
    let e = validar_solicitud_comentarios(&solicitud(None, Some("https://p"))).unwrap_err();
    assert_eq!(e.estado, SOLICITUD_INCORRECTA);
    assert_eq!(e.mensaje, "no se ha facilitado el término de búsqueda");
}

#[test]
fn transcripcion_filtra_entradas_en_orden() {
    let t = Transcripcion {
        entradas: vec![
            entrada("0", "Hola a todos"),
            entrada("2", "hoy hablamos de caf&eacute;"),
            entrada("5", "y de t&eacute;"),
            entrada("9", "CAFÉ otra vez"),
        ],
    };
    let r = recuperar_transcripcion("Café", t, "serie".to_string());
    assert_eq!(r.serializacion, "serie");
    let inicios: Vec<&str> = r.coincidencias.iter().map(|e| e.inicio.as_str()).collect();
    assert_eq!(inicios, vec!["2", "9"]);
    assert_eq!(r.coincidencias[0].texto, "hoy hablamos de caf&eacute;");
}

#[test]
fn transcripcion_sin_coincidencias() {
    let t = Transcripcion { entradas: vec![entrada("0", "uno"), entrada("1", "dos")] };
    let r = recuperar_transcripcion("tres", t, String::new());
    assert!(r.coincidencias.is_empty());
}

#[test]
fn texto_de_reserva_sin_comillas() {
    assert_eq!(
        serializacion_imposible("fallo \"grave\""),
        "{\"error\": \"imposible serializar json fallo grave\"}"
    );
    assert_eq!(serializacion_imposible(""), "{\"error\": \"imposible serializar json \"}");
}
