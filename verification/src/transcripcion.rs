//! Búsqueda en una transcripción.
use vstd::prelude::*;
use crate::comparar::{coinciden, existe_coincidencia};
use crate::errores::{ErrorBuscador, SOLICITUD_INCORRECTA};
use crate::modelos::{vista_opcional, Entrada, RespuestaTranscripcion, Solicitud, Transcripcion};

verus! {

/// Mensaje cuando falta el término de búsqueda en la transcripción.
pub open spec fn sin_busqueda_transcripcion() -> Seq<char> {
    "se debe especificar un término de búsqueda"@
}

/// Modelo de un texto o un error: el texto, o el código de estado y el mensaje.
pub open spec fn vista_resultado(r: Result<String, ErrorBuscador>) -> Result<Seq<char>, (u16, Seq<char>)> {
    match r {
        Ok(t) => Ok(t@),
        Err(e) => Err((e.estado, e.mensaje@)),
    }
}

/// Resultado de validar una solicitud de búsqueda en una transcripción, que depende
/// solo de su término de búsqueda.
pub open spec fn validacion_transcripcion(busqueda: Option<Seq<char>>) -> Result<Seq<char>, (u16, Seq<char>)> {
    match busqueda {
        Some(b) => Ok(b),
        None => Err((SOLICITUD_INCORRECTA, sin_busqueda_transcripcion())),
    }
}

/// Comprueba que la solicitud trae el término de búsqueda y lo devuelve.
pub fn validar_solicitud_transcripcion(solicitud: &Solicitud) -> (r: Result<String, ErrorBuscador>)
    ensures
        solicitud.busqueda is None ==> r is Err && r->Err_0.estado == SOLICITUD_INCORRECTA
            && r->Err_0.mensaje@ == sin_busqueda_transcripcion(),
        solicitud.busqueda is Some ==> r is Ok && r->Ok_0@ == solicitud.busqueda->Some_0@,
        vista_resultado(r) == validacion_transcripcion(vista_opcional(solicitud.busqueda)),
{
    match &solicitud.busqueda {
        None => Err(ErrorBuscador::nuevo(SOLICITUD_INCORRECTA, "se debe especificar un término de búsqueda")),
        Some(busqueda) => Ok(busqueda.clone()),
    }
}

/// Dos solicitudes de búsqueda en una transcripción con la misma URL y el mismo término
/// reciben la misma respuesta, difiera o no su URL de Piped: la validación depende solo
/// del término, la descarga solo de la URL, y `recuperar_transcripcion` solo del
/// término, de la transcripción descargada y de su serialización.
pub proof fn lema_transcripcion_no_lee_piped(a: Solicitud, b: Solicitud)
    requires
        a.url@ == b.url@,
        vista_opcional(a.busqueda) == vista_opcional(b.busqueda),
    ensures
        validacion_transcripcion(vista_opcional(a.busqueda)) == validacion_transcripcion(vista_opcional(b.busqueda)),
{
}

/// El texto de la entrada coincide con la búsqueda.
pub open spec fn entrada_coincide(e: Entrada, busqueda: Seq<char>) -> bool {
    coinciden(e.texto@, busqueda)
}

/// Responde a la búsqueda en una transcripción: sus entradas cuyo texto coincide, en
/// orden, y la transcripción completa ya serializada (`serializacion`).
pub fn recuperar_transcripcion(busqueda: &str, transcripcion: Transcripcion, serializacion: String) -> (r: RespuestaTranscripcion)
    ensures
        r.coincidencias@ == transcripcion.entradas@.filter(|e: Entrada| entrada_coincide(e, busqueda@)),
        r.serializacion == serializacion,
        r.coincidencias@.len() <= transcripcion.entradas@.len(),
        forall|i: int|
            0 <= i < transcripcion.entradas@.len() && coinciden(transcripcion.entradas@[i].texto@, busqueda@)
            ==> r.coincidencias@.contains(#[trigger] transcripcion.entradas@[i]),
        forall|k: int| 0 <= k < r.coincidencias@.len() ==> {
            &&& coinciden((#[trigger] r.coincidencias@[k]).texto@, busqueda@)
            &&& transcripcion.entradas@.contains(r.coincidencias@[k])
        },
{
    let ghost entradas = transcripcion.entradas@;
    let mut coincidencias: Vec<Entrada> = Vec::new();
    for v in it: transcripcion.entradas
        invariant
            it.seq() == entradas,
            coincidencias@ == entradas.take(it.index() as int).filter(|e: Entrada| entrada_coincide(e, busqueda@)),
    {
        let ghost k = it.index() as int;
        proof {
            reveal(Seq::filter);
            assert(entradas.take(k + 1).drop_last() =~= entradas.take(k));
            assert(entradas.take(k + 1).last() == v);
        }
        if existe_coincidencia(v.texto.as_str(), busqueda) {
            coincidencias.push(v);
        }
    }
    assert(entradas.take(entradas.len() as int) =~= entradas);
    proof {
        lema_coincidencias_transcripcion(entradas, busqueda@);
    }
    RespuestaTranscripcion { coincidencias, serializacion }
}

/// Las entradas devueltas son exactamente las que coinciden: cada una coincide con la
/// búsqueda y es una entrada de la transcripción, cada entrada cuyo texto coincide está
/// entre ellas y nunca son más que las de la transcripción.
pub proof fn lema_coincidencias_transcripcion(entradas: Seq<Entrada>, busqueda: Seq<char>)
    ensures
        ({
            let coincidencias = entradas.filter(|e: Entrada| entrada_coincide(e, busqueda));
            &&& coincidencias.len() <= entradas.len()
            &&& forall|k: int| 0 <= k < coincidencias.len() ==> {
                &&& coinciden((#[trigger] coincidencias[k]).texto@, busqueda)
                &&& entradas.contains(coincidencias[k])
            }
            &&& forall|i: int| 0 <= i < entradas.len() && coinciden(entradas[i].texto@, busqueda)
                ==> #[trigger] coincidencias.contains(entradas[i])
        }),
{
    let pred = |e: Entrada| entrada_coincide(e, busqueda);
    let coincidencias = entradas.filter(pred);
    entradas.lemma_filter_len(pred);
    assert forall|k: int| 0 <= k < coincidencias.len() implies {
        &&& coinciden((#[trigger] coincidencias[k]).texto@, busqueda)
        &&& entradas.contains(coincidencias[k])
    } by {
        entradas.lemma_filter_pred(pred, k);
        assert(coincidencias.contains(coincidencias[k]));
        entradas.lemma_filter_contains_rev(pred, coincidencias[k]);
    }
    assert forall|i: int| 0 <= i < entradas.len() && coinciden(entradas[i].texto@, busqueda)
        implies #[trigger] coincidencias.contains(entradas[i]) by {
        entradas.lemma_filter_contains(pred, i);
    }
}

/// `String::push` añade el carácter al final del texto, como dice su documentación.
pub assume_specification[ String::push ](s: &mut String, ch: char)
    ensures
        final(s)@ == old(s)@.push(ch),
;

/// Texto de reserva cuando ni siquiera el mensaje de error se puede serializar: un
/// objeto JSON con el mensaje `detalle` sin comillas dobles.
pub open spec fn serializacion_imposible_esperada(detalle: Seq<char>) -> Seq<char> {
    "{\"error\": \"imposible serializar json "@ + quitar_comillas(detalle) + "\"}"@
}

/// El texto sin sus comillas dobles.
pub open spec fn quitar_comillas(d: Seq<char>) -> Seq<char> {
    d.filter(|c: char| c != '"')
}

/// Construye el texto de reserva cuando ni siquiera el mensaje de error se puede
/// serializar.
pub fn serializacion_imposible(detalle: &str) -> (r: String)
    ensures
        r@ == serializacion_imposible_esperada(detalle@),
        !detalle@.contains('"') ==> r@ == "{\"error\": \"imposible serializar json "@ + detalle@ + "\"}"@,
        ({
            let inicio = "{\"error\": \"imposible serializar json "@;
            let fin = "\"}"@;
            &&& r@.len() >= inicio.len() + fin.len()
            &&& r@.take(inicio.len() as int) == inicio
            &&& r@.skip(r@.len() - fin.len()) == fin
            &&& forall|i: int| inicio.len() <= i < r@.len() - fin.len() ==> #[trigger] r@[i] != '"'
        }),
{
    let mut r = String::from_str("{\"error\": \"imposible serializar json ");
    let ghost inicio = r@;
    let ghost d = detalle@;
    for c in it: detalle.chars()
        invariant
            it.seq() == d,
            r@ == inicio + quitar_comillas(d.take(it.index() as int)),
    {
        let ghost k = it.index() as int;
        proof {
            reveal(Seq::filter);
            assert(d.take(k + 1).drop_last() =~= d.take(k));
            assert(d.take(k + 1).last() == c);
        }
        if c != '"' {
            r.push(c);
        }
    }
    assert(d.take(d.len() as int) =~= d);
    r.append("\"}");
    proof {
        lema_quitar_comillas(d);
        let fin = "\"}"@;
        assert(r@.take(inicio.len() as int) =~= inicio);
        assert(r@.skip(r@.len() - fin.len()) =~= fin);
        assert forall|i: int| inicio.len() <= i < r@.len() - fin.len() implies r@[i] != '"' by {
            assert(r@[i] == quitar_comillas(d)[i - inicio.len()]);
        }
    }
    r
}

/// Quitar las comillas dobles de un texto deja un texto sin ellas, y un texto sin
/// comillas dobles no cambia.
pub proof fn lema_quitar_comillas(d: Seq<char>)
    ensures
        forall|i: int| 0 <= i < quitar_comillas(d).len() ==> #[trigger] quitar_comillas(d)[i] != '"',
        !d.contains('"') ==> quitar_comillas(d) == d,
    decreases d.len(),
{
    let pred = |c: char| c != '"';
    assert forall|i: int| 0 <= i < d.filter(pred).len() implies d.filter(pred)[i] != '"' by {
        d.lemma_filter_pred(pred, i);
    }
    if d.len() > 0 {
        lema_quitar_comillas(d.drop_last());
        reveal(Seq::filter);
        if !d.contains('"') {
            assert(!d.drop_last().contains('"')) by {
                if d.drop_last().contains('"') {
                    let k = choose|k: int| 0 <= k < d.drop_last().len() && d.drop_last()[k] == '"';
                    assert(d[k] == '"');
                }
            }
            assert(d.last() != '"') by {
                assert(d[d.len() - 1] == d.last());
            }
            assert(d.drop_last().push(d.last()) =~= d);
        }
    } else {
        reveal(Seq::filter);
    }
}

} // verus!
