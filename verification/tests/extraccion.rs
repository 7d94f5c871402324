use buscador_contenido_youtube::comentarios::{expresion_identificador, recuperar_identificador_youtube};
use buscador_contenido_youtube::errores::{ErrorBuscador, PASARELA_INCORRECTA};
use buscador_contenido_youtube::expresion::ExpresionRegular;
use buscador_contenido_youtube::modelos::CaptionTrack;
use buscador_contenido_youtube::transcripciones::{
    expresion_transcripciones, extraer_transcripciones, recuperar_transcripciones,
};

fn mensaje(e: ErrorBuscador) -> (u16, String) {
    (e.estado, e.mensaje)
}

#[test]
fn patron_invalido_no_compila() {
    assert!(ExpresionRegular::nueva("(abc").is_err());
    assert!(ExpresionRegular::nueva("a(?<x>b)").is_ok());
}

#[test]
fn captura_de_grupo_con_nombre() {
    let e = ExpresionRegular::nueva("a(?<x>b+)c").unwrap();
    assert_eq!(e.capturar_grupo("zzabbbczz", "x"), Some("bbb".to_string()));
    assert_eq!(e.capturar_grupo("zzac", "x"), None);
    assert_eq!(e.capturar_grupo("abc", "y"), None);
}

#[test]
fn identificador_encontrado() {
    let e = expresion_identificador().unwrap();
    let pagina = "<html><meta itemprop=\"name\" content=\"x\"><meta itemprop=\"identifier\" content=\"dQw4w9WgXcQ\"><body>";
    assert_eq!(recuperar_identificador_youtube(pagina, &e).unwrap(), "dQw4w9WgXcQ");
}

#[test]
fn identificador_ausente() {
    let e = expresion_identificador().unwrap();
    let r = recuperar_identificador_youtube("<html></html>", &e);
    assert_eq!(
        mensaje(r.unwrap_err()),
        (
            PASARELA_INCORRECTA,
            "no se ha podido localizar el identificador de YouTube, intentalo con una URL más común".to_string()
        )
    );
}

#[test]
fn identificador_de_longitud_incorrecta() {
    let e = expresion_identificador().unwrap();
    let r = recuperar_identificador_youtube("<meta itemprop=\"identifier\" content=\"corto\">", &e);
    assert_eq!(
        mensaje(r.unwrap_err()),
        (
            PASARELA_INCORRECTA,
            "no se ha podido localizar el identificador de 11 caracteres de YouTube, intentalo con una URL más común".to_string()
        )
    );
    // La longitud se mide en bytes: 11 caracteres con uno no ASCII no valen.
    let r = recuperar_identificador_youtube("<meta itemprop=\"identifier\" content=\"ñbcdefghijk\">", &e);
    assert!(r.is_err());
}

#[test]
fn transcripciones_extraidas() {
    let e = expresion_transcripciones().unwrap();
    let pagina = "var x = {\"captions\":{\"playerCaptionsTracklistRenderer\":{\"captionTracks\":[{\"baseUrl\":\"https://u\",\"languageCode\":\"es\"}],\"audioTracks\":[]}}};";
    assert_eq!(
        extraer_transcripciones(pagina, &e).unwrap(),
        "[{\"baseUrl\":\"https://u\",\"languageCode\":\"es\"}]"
    );
}

#[test]
fn transcripciones_ausentes() {
    let e = expresion_transcripciones().unwrap();
    let r = extraer_transcripciones("<html>sin subtitulos</html>", &e);
    assert_eq!(
        mensaje(r.unwrap_err()),
        (PASARELA_INCORRECTA, "no se ha encontrado ningún enlace con transcripciones".to_string())
    );
}

#[test]
fn lista_de_transcripciones_vacia() {
    let r = recuperar_transcripciones(Vec::new());
    assert_eq!(
        mensaje(r.unwrap_err()),
        (
            PASARELA_INCORRECTA,
            "la URL de youtube no ha devuelto ningún enlace con transcripciones".to_string()
        )
    );
}

#[test]
fn lista_de_transcripciones_no_vacia() {
    let pistas = vec![CaptionTrack { base_url: "https://u".to_string(), language_code: "es".to_string() }];
    let r = recuperar_transcripciones(pistas).unwrap();
    assert_eq!(r.len(), 1);
    assert_eq!(r[0].base_url, "https://u");
    assert_eq!(r[0].language_code, "es");
}
