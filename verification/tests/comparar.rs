use buscador_contenido_youtube::comparar::{contiene, existe_coincidencia, normalizar};

#[test]
fn contiene_subcadena_intermedia() {
    assert!(contiene("hola mundo", "a mu"));
    assert!(contiene("hola", "hola"));
    assert!(!contiene("hola", "holas"));
    assert!(!contiene("ab", "ba"));
}

#[test]
fn contiene_patron_vacio() {
    assert!(contiene("", ""));
    assert!(contiene("texto", ""));
    assert!(!contiene("", "x"));
}

#[test]
fn contiene_caracteres_no_ascii() {
    assert!(contiene("北亰 y más", "亰 y m"));
    assert!(!contiene("más", "mas"));
}

#[test]
fn normalizar_decodifica_minusculas_y_translitera() {
    assert_eq!(normalizar("&Aacute;RBOL"), "arbol");
    assert_eq!(normalizar("Caf&eacute; &amp; T&#233;"), "cafe & te");
    assert_eq!(normalizar("Ñandú"), "nandu");
}

#[test]
fn normalizar_entidad_desconocida_deja_texto_vacio() {
    assert_eq!(normalizar("hola &noexiste; mundo"), "");
    assert_eq!(normalizar("sin cerrar &amp"), "");
}

#[test]
fn coincidencia_ignora_mayusculas_acentos_y_entidades() {
    assert!(existe_coincidencia("Un Caf&eacute; CON leche", "cafe con"));
    assert!(existe_coincidencia("canción", "CANCION"));
    assert!(!existe_coincidencia("hola", "adios"));
}

#[test]
fn coincidencia_con_texto_mal_codificado() {
    // El texto que no se puede decodificar se compara como vacío.
    assert!(!existe_coincidencia("&malo; hola", "hola"));
    assert!(existe_coincidencia("&malo; hola", ""));
}

#[test]
fn ley_texto_coincide_consigo() {
    for t in ["", "Hola", "Caf&eacute;", "&x;", "北亰", "a\"b"] {
        assert!(existe_coincidencia(t, t));
    }
}

#[test]
fn ley_busqueda_vacia_coincide_siempre() {
    for t in ["", "Hola", "&x;", "北亰"] {
        assert!(existe_coincidencia(t, ""));
        assert!(existe_coincidencia(t, "&roto;"));
    }
}

#[test]
fn ley_busqueda_mas_corta() {
    assert!(existe_coincidencia("El murciélago", "MURCIE"));
    assert!(existe_coincidencia("El murciélago", "urci"));
}

#[test]
fn normalizar_texto_ascii_solo_baja_mayusculas() {
    assert_eq!(normalizar("Hola MUNDO 123 [x]!"), "hola mundo 123 [x]!");
    assert_eq!(normalizar(""), "");
}

#[test]
fn busqueda_ascii_sin_distinguir_mayusculas() {
    assert!(existe_coincidencia("The Quick Brown Fox", "QUICK brown"));
    assert!(!existe_coincidencia("The Quick Brown Fox", "quick  brown"));
    assert!(existe_coincidencia("abc", ""));
}

#[test]
fn texto_que_no_decodifica_solo_admite_busqueda_vacia() {
    assert!(!existe_coincidencia("&malo; texto", "texto"));
    assert!(existe_coincidencia("&malo; texto", "&roto;"));
    assert!(existe_coincidencia("cualquier cosa", "&roto;"));
}
