//! Expresiones regulares compiladas con el crate `regex`.
use vstd::prelude::*;
use crate::comparar::contiene_subcadena;

verus! {

#[verifier::external_type_specification]
#[verifier::external_body]
pub struct ExRegex(regex::Regex);

#[verifier::external_type_specification]
#[verifier::external_body]
pub struct ExRegexError(regex::Error);

/// `regex::Regex::new` acepta el patrón.
pub uninterp spec fn patron_compilable(patron: Seq<char>) -> bool;

/// Texto del grupo `grupo` en la primera coincidencia del patrón en `texto`, tal como
/// lo devuelven `Regex::captures` y `Captures::name`; `None` si no hay coincidencia o
/// si el grupo no participa en ella.
pub uninterp spec fn captura_con_nombre(patron: Seq<char>, texto: Seq<char>, grupo: Seq<char>) -> Option<Seq<char>>;

/// Una expresión regular compilada junto con el patrón del que procede.
pub struct ExpresionRegular {
    patron: String,
    compilada: regex::Regex,
}

/// Llama a `regex::Regex::new` y guarda la expresión compilada junto al patrón del
/// que procede. Se confía en que el patrón compila exactamente cuando
/// `patron_compilable` lo dice. Es el único sitio que construye una `ExpresionRegular`.
#[verifier::external_body]
fn compilar(patron: &str) -> (r: Result<ExpresionRegular, regex::Error>)
    ensures
        r is Ok <==> patron_compilable(patron@),
        r is Ok ==> r->Ok_0.patron@ == patron@,
{
    match regex::Regex::new(patron) {
        Ok(compilada) => Ok(ExpresionRegular { patron: patron.to_string(), compilada }),
        Err(e) => Err(e),
    }
}

/// Llama a `Regex::captures` sobre la expresión compilada y lee el grupo `grupo` con
/// `Captures::name` y `Match::as_str`. Se confía en que la expresión se compiló a
/// partir de `e.patron` (solo `compilar` construye una `ExpresionRegular`),
/// en que el resultado es `captura_con_nombre` y en que, como documenta `Match`, el
/// texto capturado es una subcadena de `texto`. Una coincidencia en la que el grupo no
/// participa se devuelve igual que la ausencia de coincidencia.
#[verifier::external_body]
fn capturar(e: &ExpresionRegular, texto: &str, grupo: &str) -> (r: Option<String>)
    ensures
        match r {
            Some(t) => captura_con_nombre(e.patron@, texto@, grupo@) == Some(t@),
            None => captura_con_nombre(e.patron@, texto@, grupo@) is None,
        },
        r is Some ==> contiene_subcadena(texto@, r->Some_0@),
{
    match e.compilada.captures(texto) {
        None => None,
        Some(capturas) => match capturas.name(grupo) {
            None => None,
            Some(m) => Some(m.as_str().to_string()),
        },
    }
}

impl ExpresionRegular {
    /// El patrón del que se compiló la expresión.
    pub closed spec fn patron(&self) -> Seq<char> {
        self.patron@
    }

    /// Compila `patron`; falla exactamente cuando `regex` no lo acepta.
    pub fn nueva(patron: &str) -> (r: Result<ExpresionRegular, regex::Error>)
        ensures
            r is Ok <==> patron_compilable(patron@),
            r is Ok ==> r->Ok_0.patron() == patron@,
    {
        compilar(patron)
    }

    /// Texto del grupo `grupo` en la primera coincidencia de la expresión en `texto`.
    pub fn capturar_grupo(&self, texto: &str, grupo: &str) -> (r: Option<String>)
        ensures
            match r {
                Some(t) => captura_con_nombre(self.patron(), texto@, grupo@) == Some(t@),
                None => captura_con_nombre(self.patron(), texto@, grupo@) is None,
            },
            r is Some ==> contiene_subcadena(texto@, r->Some_0@),
    {
        capturar(self, texto, grupo)
    }
}

} // verus!
