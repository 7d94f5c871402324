//! Comparación de textos: normalización y búsqueda de una subcadena.
use vstd::prelude::*;

verus! {

/// `patron` aparece en `texto` a partir de la posición `i`.
pub open spec fn aparece_en(texto: Seq<char>, patron: Seq<char>, i: int) -> bool {
    0 <= i && i + patron.len() <= texto.len() && texto.subrange(i, i + patron.len()) == patron
}

/// `patron` es una subcadena de `texto` (la cadena vacía lo es de todas).
pub open spec fn contiene_subcadena(texto: Seq<char>, patron: Seq<char>) -> bool {
    exists|i: int| #[trigger] aparece_en(texto, patron, i)
}

/// Texto resultante de `htmlescape::decode_html`, o `None` si la función falla.
pub uninterp spec fn decodificacion_html(s: Seq<char>) -> Option<Seq<char>>;

/// Texto resultante de `str::to_lowercase`.
pub uninterp spec fn minusculas(s: Seq<char>) -> Seq<char>;

/// Texto resultante de `unidecode::unidecode`.
pub uninterp spec fn transliteracion(s: Seq<char>) -> Seq<char>;

#[verifier::external_type_specification]
#[verifier::external_body]
pub struct ExDecodeErr(htmlescape::DecodeErr);

/// El texto no contiene el carácter `&`, con el que empieza toda entidad HTML.
pub open spec fn sin_entidades(s: Seq<char>) -> bool {
    !s.contains('&')
}

/// Llama a `htmlescape::decode_html`, que sustituye las entidades HTML por sus
/// caracteres. Se confía en que el resultado es `decodificacion_html` del texto y
/// en que un texto sin `&` vuelve intacto: sin `&` el decodificador no sale nunca
/// de su estado normal y copia cada carácter.
#[verifier::external_body]
fn decodificar_html(s: &str) -> (r: Result<String, htmlescape::DecodeErr>)
    ensures
        match r {
            Ok(t) => decodificacion_html(s@) == Some(t@),
            Err(_) => decodificacion_html(s@) is None,
        },
        sin_entidades(s@) ==> r is Ok && r->Ok_0@ == s@,
{
    htmlescape::decode_html(s)
}

/// Todos los caracteres del texto son ASCII.
pub open spec fn es_ascii(s: Seq<char>) -> bool {
    forall|i: int| 0 <= i < s.len() ==> (s[i] as u32) < 128
}

/// Minúscula de un carácter ASCII: las letras `A`..`Z` pasan a `a`..`z`; el resto no
/// cambia.
pub open spec fn minuscula_ascii(c: char) -> char {
    if 'A' <= c && c <= 'Z' {
        ((c as u32) + 32) as char
    } else {
        c
    }
}

/// Llama a `str::to_lowercase`. Se confía en que el resultado es `minusculas` del
/// texto, en que el texto vacío queda vacío y en que, en un texto ASCII, cada letra
/// mayúscula pasa a su minúscula y los demás caracteres no cambian (la minúscula de
/// Unicode, que sigue la documentación, coincide ahí con la de ASCII).
#[verifier::external_body]
fn a_minusculas(s: &str) -> (r: String)
    ensures
        r@ == minusculas(s@),
        s@.len() == 0 ==> r@.len() == 0,
        es_ascii(s@) ==> r@ == s@.map_values(|c: char| minuscula_ascii(c)),
{
    s.to_lowercase()
}

/// Llama a `unidecode::unidecode`, que translitera a ASCII. Se confía en que el
/// resultado es `transliteracion` del texto y en las dos garantías que documenta la
/// función: el resultado es ASCII y cada carácter ASCII se traduce en sí mismo.
#[verifier::external_body]
fn transliterar(s: &str) -> (r: String)
    ensures
        r@ == transliteracion(s@),
        forall|i: int| 0 <= i < r@.len() ==> (r@[i] as u32) < 128,
        (forall|i: int| 0 <= i < s@.len() ==> (s@[i] as u32) < 128) ==> r@ == s@,
{
    unidecode::unidecode(s)
}

/// Texto normalizado para comparar: entidades HTML decodificadas (o vacío si la
/// decodificación falla), en minúsculas y transliterado a ASCII.
pub open spec fn texto_normalizado(s: Seq<char>) -> Seq<char> {
    let decodificado = match decodificacion_html(s) {
        Some(d) => d,
        None => Seq::empty(),
    };
    transliteracion(minusculas(decodificado))
}

/// El texto normalizado de `busqueda` aparece en el texto normalizado de `cadena`.
pub open spec fn coinciden(cadena: Seq<char>, busqueda: Seq<char>) -> bool {
    contiene_subcadena(texto_normalizado(cadena), texto_normalizado(busqueda))
}

/// Normaliza un texto para compararlo: decodifica las entidades HTML (si falla, el
/// texto queda vacío), lo pasa a minúsculas y lo translitera a ASCII.
///
/// Un texto vacío queda vacío, y un texto ASCII sin entidades solo cambia sus
/// mayúsculas por minúsculas.
pub fn normalizar(s: &str) -> (r: String)
    ensures
        r@ == texto_normalizado(s@),
        s@.len() == 0 ==> r@.len() == 0,
        decodificacion_html(s@) is None ==> r@.len() == 0,
        sin_entidades(s@) && es_ascii(s@) ==> r@ == s@.map_values(|c: char| minuscula_ascii(c)),
{
    let mut decodificado = String::new();
    match decodificar_html(s) {
        Err(_) => {},
        Ok(d) => decodificado = d,
    }
    let en_minusculas = a_minusculas(decodificado.as_str());
    proof {
        if sin_entidades(s@) && es_ascii(s@) {
            assert forall|i: int| 0 <= i < en_minusculas@.len() implies (en_minusculas@[i] as u32) < 128 by {
                let c = s@[i];
                assert((c as u32) < 128);
                if 'A' <= c && c <= 'Z' {
                    vstd::utf8::char_u32_cast(minuscula_ascii(c), ((c as u32) + 32) as u32);
                }
            }
        }
        if s@.len() == 0 {
            assert(sin_entidades(s@));
        }
        if decodificado@.len() == 0 {
            assert(es_ascii(en_minusculas@));
        }
    }
    transliterar(en_minusculas.as_str())
}

/// Indica si `busqueda` aparece en `cadena` una vez normalizados ambos textos.
///
/// Una búsqueda vacía coincide con todo texto, y entre textos ASCII sin entidades la
/// búsqueda es una búsqueda de subcadena que no distingue mayúsculas de minúsculas.
pub fn existe_coincidencia(cadena: &str, busqueda: &str) -> (r: bool)
    ensures
        r == coinciden(cadena@, busqueda@),
        busqueda@.len() == 0 ==> r,
        decodificacion_html(busqueda@) is None ==> r,
        decodificacion_html(cadena@) is None ==> r == (texto_normalizado(busqueda@).len() == 0),
        sin_entidades(cadena@) && es_ascii(cadena@) && sin_entidades(busqueda@) && es_ascii(busqueda@)
            ==> r == contiene_subcadena(
            cadena@.map_values(|c: char| minuscula_ascii(c)),
            busqueda@.map_values(|c: char| minuscula_ascii(c)),
        ),
{
    let cadena_normalizada = normalizar(cadena);
    let busqueda_normalizada = normalizar(busqueda);
    proof {
        if busqueda_normalizada@.len() == 0 {
            assert(busqueda_normalizada@ =~= Seq::<char>::empty());
            lema_contiene_vacia(cadena_normalizada@);
        }
        if cadena_normalizada@.len() == 0 {
            lema_contiene_en_vacio(busqueda_normalizada@);
        }
    }
    contiene(cadena_normalizada.as_str(), busqueda_normalizada.as_str())
}

/// Todo texto es subcadena de sí mismo.
pub proof fn lema_contiene_reflexiva(texto: Seq<char>)
    ensures
        contiene_subcadena(texto, texto),
{
    assert(texto.subrange(0, texto.len() as int) =~= texto);
    assert(aparece_en(texto, texto, 0));
}

/// La cadena vacía es subcadena de todo texto.
pub proof fn lema_contiene_vacia(texto: Seq<char>)
    ensures
        contiene_subcadena(texto, Seq::empty()),
{
    assert(texto.subrange(0, 0) =~= Seq::<char>::empty());
    assert(aparece_en(texto, Seq::empty(), 0));
}

/// Solo la cadena vacía es subcadena del texto vacío.
pub proof fn lema_contiene_en_vacio(patron: Seq<char>)
    ensures
        contiene_subcadena(Seq::empty(), patron) <==> patron.len() == 0,
{
    if patron.len() == 0 {
        assert(patron =~= Seq::<char>::empty());
        lema_contiene_vacia(Seq::empty());
    } else {
        assert forall|i: int| !#[trigger] aparece_en(Seq::empty(), patron, i) by {}
    }
}

/// Una subcadena de una subcadena de un texto es subcadena del texto.
pub proof fn lema_contiene_transitiva(a: Seq<char>, b: Seq<char>, c: Seq<char>)
    requires
        contiene_subcadena(a, b),
        contiene_subcadena(b, c),
    ensures
        contiene_subcadena(a, c),
{
    let i = choose|i: int| aparece_en(a, b, i);
    let j = choose|j: int| aparece_en(b, c, j);
    assert(a.subrange(i + j, i + j + c.len()) =~= b.subrange(j, j + c.len()));
    assert(aparece_en(a, c, i + j));
}

/// Una búsqueda encuentra siempre el propio texto buscado.
pub proof fn lema_texto_coincide_consigo(texto: Seq<char>)
    ensures
        coinciden(texto, texto),
{
    lema_contiene_reflexiva(texto_normalizado(texto));
}

/// Una búsqueda que queda vacía al normalizarla coincide con todo texto.
pub proof fn lema_busqueda_vacia(cadena: Seq<char>, busqueda: Seq<char>)
    requires
        texto_normalizado(busqueda).len() == 0,
    ensures
        coinciden(cadena, busqueda),
{
    assert(texto_normalizado(busqueda) =~= Seq::<char>::empty());
    lema_contiene_vacia(texto_normalizado(cadena));
}

/// Dos textos que se normalizan igual coinciden con las mismas búsquedas: las
/// diferencias de mayúsculas, acentos o entidades HTML que borra la normalización
/// no cambian el resultado.
pub proof fn lema_normalizacion_indistinguible(a: Seq<char>, b: Seq<char>, busqueda: Seq<char>)
    requires
        texto_normalizado(a) == texto_normalizado(b),
    ensures
        coinciden(a, busqueda) == coinciden(b, busqueda),
{
}

/// Si una búsqueda coincide con un texto, también coincide cualquier búsqueda más
/// corta cuyo texto normalizado esté dentro del de la primera.
pub proof fn lema_busqueda_mas_corta(cadena: Seq<char>, larga: Seq<char>, corta: Seq<char>)
    requires
        coinciden(cadena, larga),
        contiene_subcadena(texto_normalizado(larga), texto_normalizado(corta)),
    ensures
        coinciden(cadena, corta),
{
    lema_contiene_transitiva(
        texto_normalizado(cadena),
        texto_normalizado(larga),
        texto_normalizado(corta),
    );
}

/// Los caracteres de un texto, en orden.
fn caracteres(s: &str) -> (v: Vec<char>)
    ensures
        v@ == s@,
{
    let mut v: Vec<char> = Vec::new();
    for c in it: s.chars()
        invariant
            v@ == it.seq().take(it.index() as int),
            it.seq() == s@,
    {
        v.push(c);
    }
    v
}

/// `p` aparece en `t` a partir de la posición `i`, sabiendo que cabe.
fn coincide_en(t: &Vec<char>, p: &Vec<char>, i: usize) -> (r: bool)
    requires
        i + p@.len() <= t@.len(),
    ensures
        r == aparece_en(t@, p@, i as int),
{
    let mut k: usize = 0;
    while k < p.len()
        invariant
            i + p@.len() <= t.len(),
            k <= p@.len(),
            forall|m: int| 0 <= m < k ==> t@[i + m] == p@[m],
        decreases p@.len() - k,
    {
        if t[i + k] != p[k] {
            assert(t@.subrange(i as int, i + p@.len())[k as int] != p@[k as int]);
            return false;
        }
        k = k + 1;
    }
    assert(t@.subrange(i as int, i + p@.len()) =~= p@);
    true
}

/// Indica si `patron` es una subcadena de `texto`.
pub fn contiene(texto: &str, patron: &str) -> (r: bool)
    ensures
        r == contiene_subcadena(texto@, patron@),
{
    let t = caracteres(texto);
    let p = caracteres(patron);
    if p.len() > t.len() {
        assert forall|j: int| !#[trigger] aparece_en(t@, p@, j) by {}
        return false;
    }
    let ultimo: usize = t.len() - p.len();
    let mut i: usize = 0;
    loop
        invariant
            t@ == texto@,
            p@ == patron@,
            ultimo == t@.len() - p@.len(),
            i <= ultimo,
            forall|j: int| 0 <= j < i ==> !#[trigger] aparece_en(t@, p@, j),
        ensures
            forall|j: int| 0 <= j <= ultimo ==> !#[trigger] aparece_en(t@, p@, j),
        decreases ultimo - i,
    {
        if coincide_en(&t, &p, i) {
            return true;
        }
        if i == ultimo {
            break;
        }
        i = i + 1;
    }
    assert forall|j: int| !#[trigger] aparece_en(t@, p@, j) by {
        if 0 <= j && j <= ultimo {
        }
    }
    false
}

} // verus!
