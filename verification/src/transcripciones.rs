//! Localización de las transcripciones que ofrece un vídeo.
use vstd::prelude::*;
use crate::errores::{ErrorBuscador, PASARELA_INCORRECTA};
use crate::expresion::{captura_con_nombre, patron_compilable, ExpresionRegular};
use crate::modelos::CaptionTrack;

verus! {

/// Patrón que localiza, en la página del vídeo, la lista JSON de transcripciones.
pub open spec fn patron_transcripciones() -> Seq<char> {
    "\\{\"captionTracks\":(?<captions>\\[.*?\\])"@
}

/// Compila el patrón que localiza la lista de transcripciones.
pub fn expresion_transcripciones() -> (r: Result<ExpresionRegular, regex::Error>)
    ensures
        r is Ok <==> patron_compilable(patron_transcripciones()),
        r is Ok ==> r->Ok_0.patron() == patron_transcripciones(),
{
    ExpresionRegular::nueva("\\{\"captionTracks\":(?<captions>\\[.*?\\])")
}

/// Mensaje cuando la página del vídeo no anuncia transcripciones.
pub open spec fn sin_enlaces() -> Seq<char> {
    "no se ha encontrado ningún enlace con transcripciones"@
}

/// Mensaje cuando la lista de transcripciones está vacía.
pub open spec fn lista_vacia() -> Seq<char> {
    "la URL de youtube no ha devuelto ningún enlace con transcripciones"@
}

/// Extrae de la página del vídeo (`respuesta`) el texto JSON de la lista de
/// transcripciones: el grupo `captions` de la primera coincidencia de `exp`.
pub fn extraer_transcripciones(respuesta: &str, exp: &ExpresionRegular) -> (r: Result<String, ErrorBuscador>)
    ensures
        match captura_con_nombre(exp.patron(), respuesta@, "captions"@) {
            None => r is Err && r->Err_0.estado == PASARELA_INCORRECTA && r->Err_0.mensaje@ == sin_enlaces(),
            Some(t) => r is Ok && r->Ok_0@ == t,
        },
{
    match exp.capturar_grupo(respuesta, "captions") {
        None => Err(ErrorBuscador::nuevo(
            PASARELA_INCORRECTA,
            "no se ha encontrado ningún enlace con transcripciones",
        )),
        Some(t) => Ok(t),
    }
}

/// Acepta la lista de transcripciones leída si no está vacía.
pub fn recuperar_transcripciones(pistas: Vec<CaptionTrack>) -> (r: Result<Vec<CaptionTrack>, ErrorBuscador>)
    ensures
        pistas.len() == 0 ==> r is Err && r->Err_0.estado == PASARELA_INCORRECTA
            && r->Err_0.mensaje@ == lista_vacia(),
        pistas.len() > 0 ==> r == Ok::<Vec<CaptionTrack>, ErrorBuscador>(pistas),
{
    if pistas.len() == 0 {
        Err(ErrorBuscador::nuevo(
            PASARELA_INCORRECTA,
            "la URL de youtube no ha devuelto ningún enlace con transcripciones",
        ))
    } else {
        Ok(pistas)
    }
}

} // verus!
