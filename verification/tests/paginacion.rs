use buscador_contenido_youtube::comentarios::{buscar_comentarios, EstadoComentarios};
use buscador_contenido_youtube::modelos::{Comentarios, ComentariosPiped};

fn comentario(id: &str, texto: &str, respuestas: Option<&str>) -> Comentarios {
    Comentarios {
        author: format!("autor {id}"),
        comment_text: texto.to_string(),
        comment_id: id.to_string(),
        replies_page: respuestas.map(|s| s.to_string()),
        commented_time: "hace 1 día".to_string(),
        comments_collection: None,
    }
}

fn pagina(comments: Vec<Comentarios>, nextpage: Option<&str>) -> ComentariosPiped {
    ComentariosPiped { comments, nextpage: nextpage.map(|s| s.to_string()), disabled: false }
}

/// Recorre las páginas de la API simulada como lo hace la aplicación.
fn recuperar(paginas: Vec<ComentariosPiped>) -> (Vec<(String, Option<String>)>, Vec<Comentarios>) {
    let mut estado = EstadoComentarios::nuevo();
    let mut peticiones = Vec::new();
    let mut paginas = paginas.into_iter();
    while let Some(p) = estado.siguiente_peticion("https://piped", "vid") {
        peticiones.push((p.endpoint, p.nextpage));
        estado.procesar_pagina(paginas.next().expect("falta una página"));
    }
    assert!(paginas.next().is_none());
    (peticiones, estado.comentarios())
}

#[test]
fn primera_peticion() {
    let estado = EstadoComentarios::nuevo();
    let p = estado.siguiente_peticion("https://piped.example", "abc").unwrap();
    assert_eq!(p.endpoint, "https://piped.example/comments/abc");
    assert_eq!(p.nextpage, None);
}

#[test]
fn una_sola_pagina() {
    let (peticiones, comentarios) = recuperar(vec![pagina(vec![comentario("a", "uno", None)], None)]);
    assert_eq!(peticiones, vec![("https://piped/comments/vid".to_string(), None)]);
    assert_eq!(comentarios.len(), 1);
    assert_eq!(comentarios[0].comment_id, "a");
    assert!(comentarios[0].comments_collection.is_none());
}

#[test]
fn paginas_de_respuestas_y_siguientes() {
    let paginas = vec![
        pagina(vec![comentario("a", "Primero", Some("ra")), comentario("b", "Segundo", None)], Some("p2")),
        // Respuestas a "a": anuncian otra página, que vuelve a ir como principal.
        pagina(vec![comentario("a1", "resp uno", None), comentario("a2", "resp dos", None)], Some("ra2")),
        pagina(vec![comentario("c", "Tercero", Some("rc"))], None),
        pagina(vec![comentario("a3", "más", None)], None),
        pagina(vec![comentario("c1", "de c", None)], None),
    ];
    let (peticiones, comentarios) = recuperar(paginas);
    let siguiente = "https://piped/nextpage/comments/vid".to_string();
    assert_eq!(
        peticiones,
        vec![
            ("https://piped/comments/vid".to_string(), None),
            (siguiente.clone(), Some("ra".to_string())),
            (siguiente.clone(), Some("p2".to_string())),
            (siguiente.clone(), Some("ra2".to_string())),
            (siguiente.clone(), Some("rc".to_string())),
        ]
    );
    let ids: Vec<&str> = comentarios.iter().map(|c| c.comment_id.as_str()).collect();
    assert_eq!(ids, vec!["a", "b", "c", "a3"]);
    let respuestas_a: Vec<&str> = comentarios[0]
        .comments_collection
        .as_ref()
        .unwrap()
        .iter()
        .map(|c| c.comment_id.as_str())
        .collect();
    assert_eq!(respuestas_a, vec!["a1", "a2"]);
    // Las respuestas se guardan sin testigo de página.
    assert!(comentarios[0].comments_collection.as_ref().unwrap()[0].replies_page.is_none());
    assert_eq!(comentarios[0].replies_page.as_deref(), Some("ra"));
    assert!(comentarios[1].comments_collection.is_none());
    let respuestas_c: Vec<&str> = comentarios[2]
        .comments_collection
        .as_ref()
        .unwrap()
        .iter()
        .map(|c| c.comment_id.as_str())
        .collect();
    assert_eq!(respuestas_c, vec!["c1"]);
}

#[test]
fn pagina_de_respuestas_vacia_no_crea_coleccion() {
    let paginas = vec![pagina(vec![comentario("a", "x", Some("ra"))], None), pagina(vec![], None)];
    let (_, comentarios) = recuperar(paginas);
    assert_eq!(comentarios.len(), 1);
    assert!(comentarios[0].comments_collection.is_none());
}

#[test]
fn respuestas_a_identificador_repetido() {
    let paginas = vec![
        pagina(vec![comentario("a", "x", Some("ra")), comentario("a", "y", None)], None),
        pagina(vec![comentario("r", "z", None)], None),
    ];
    let (_, comentarios) = recuperar(paginas);
    assert_eq!(comentarios[0].comments_collection.as_ref().unwrap().len(), 1);
    assert_eq!(comentarios[1].comments_collection.as_ref().unwrap().len(), 1);
}

#[test]
fn busqueda_en_comentarios_y_respuestas() {
    let mut a = comentario("a", "Me gusta el café", None);
    a.comments_collection = Some(vec![comentario("a1", "el CAFE es bueno", None), comentario("a2", "prefiero té", None)]);
    let b = comentario("b", "nada que ver", None);
    let mut c = comentario("c", "otro", None);
    c.comments_collection = Some(vec![comentario("c1", "Caf&eacute; solo", None)]);
    let r = buscar_comentarios(vec![a, b, c], "cafe", "[]".to_string());
    assert_eq!(r.total, 6);
    assert_eq!(r.serializacion, "[]");
    let ids: Vec<&str> = r.coincidencias.iter().map(|c| c.comment_id.as_str()).collect();
    assert_eq!(ids, vec!["a", "a1", "c1"]);
    // El comentario que coincide conserva todas sus respuestas.
    assert_eq!(r.coincidencias[0].comments_collection.as_ref().unwrap().len(), 2);
}

#[test]
fn ley_coincidencias_no_superan_el_total() {
    let mut a = comentario("a", "x", None);
    a.comments_collection = Some(vec![comentario("a1", "x", None)]);
    let r = buscar_comentarios(vec![a, comentario("b", "x", None)], "", String::new());
    assert_eq!(r.total, 3);
    assert_eq!(r.coincidencias.len(), 3);
    let r = buscar_comentarios(Vec::new(), "x", String::new());
    assert_eq!(r.total, 0);
    assert!(r.coincidencias.is_empty());
}

#[test]
fn ley_lo_recuperado_se_conserva() {
    let paginas = vec![
        pagina(vec![comentario("a", "uno", Some("ra"))], None),
        pagina(vec![comentario("r1", "resp", Some("rr"))], None),
        pagina(vec![comentario("r2", "resp de resp", None)], None),
    ];
    let (_, comentarios) = recuperar(paginas);
    assert_eq!(comentarios.len(), 1);
    assert_eq!(comentarios[0].comment_text, "uno");
    assert_eq!(comentarios[0].comments_collection.as_ref().unwrap().len(), 1);
}

#[test]
fn ley_respuestas_a_un_solo_nivel() {
    let paginas = vec![
        pagina(vec![comentario("a", "uno", Some("ra")), comentario("b", "dos", Some("rb"))], None),
        pagina(vec![comentario("a1", "r", Some("ra1"))], None),
        pagina(vec![comentario("b1", "r", None)], None),
        pagina(vec![comentario("x", "r de r", None)], None),
    ];
    let (_, comentarios) = recuperar(paginas);
    for c in &comentarios {
        for r in c.comments_collection.as_deref().unwrap_or(&[]) {
            assert!(r.replies_page.is_none());
            assert!(r.comments_collection.is_none());
        }
    }
    assert_eq!(comentarios.len(), 2);
}

#[test]
fn copia_de_comentario_con_respuestas() {
    let mut a = comentario("a", "uno", Some("ra"));
    a.comments_collection = Some(vec![comentario("a1", "r", None)]);
    let b = a.clone();
    assert_eq!(a, b);
    assert_eq!(b.comments_collection.as_ref().unwrap()[0].comment_id, "a1");
    let vacio = Comentarios::default();
    assert!(vacio.comment_id.is_empty() && vacio.comments_collection.is_none());
}
