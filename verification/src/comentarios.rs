//! Búsqueda en los comentarios de un vídeo a través de la API de Piped.
//!
//! La recuperación de comentarios alterna peticiones de red con decisiones: qué página
//! pedir a continuación y cómo incorporar cada página recibida. Las decisiones viven
//! aquí, en `EstadoComentarios`; quien hace las peticiones las repite mientras
//! `siguiente_peticion` devuelva una.
use vstd::prelude::*;
use crate::comparar::{coinciden, existe_coincidencia};
use crate::errores::{ErrorBuscador, PASARELA_INCORRECTA, SOLICITUD_INCORRECTA};
use crate::expresion::{captura_con_nombre, patron_compilable, ExpresionRegular};
use crate::modelos::{
    ComentariosRespuesta, Solicitud,
    copiar_opcional, lema_vista_lista, lema_vista_lista_igual, respuestas, vista_comentario,
    vista_lista, vista_opcional, vista_paginacion, vista_paginas, ComentariosPaginacion,
    ComentariosPiped, Comentarios, VistaComentario, VistaPaginacion,
};

verus! {

/// La copia de un comentario que se guarda como respuesta: sin testigo de página de
/// respuestas ni respuestas propias.
pub open spec fn como_respuesta(c: VistaComentario) -> VistaComentario {
    VistaComentario {
        author: c.author,
        comment_text: c.comment_text,
        comment_id: c.comment_id,
        replies_page: None,
        commented_time: c.commented_time,
        comments_collection: None,
    }
}

/// La copia de un comentario que se guarda como comentario principal: sin respuestas
/// propias (las que traiga se descartan).
pub open spec fn como_principal(c: VistaComentario) -> VistaComentario {
    VistaComentario {
        author: c.author,
        comment_text: c.comment_text,
        comment_id: c.comment_id,
        replies_page: c.replies_page,
        commented_time: c.commented_time,
        comments_collection: None,
    }
}

/// La página de respuestas que anuncia un comentario, si anuncia alguna.
pub open spec fn pagina_de_respuestas(c: VistaComentario) -> Seq<VistaPaginacion> {
    match c.replies_page {
        Some(testigo) => seq![VistaPaginacion { siguiente: testigo, id_asociado: Some(c.comment_id) }],
        None => Seq::empty(),
    }
}

/// Las páginas de respuestas que anuncian los comentarios de una página, en orden.
pub open spec fn paginas_de_respuestas(cs: Seq<VistaComentario>) -> Seq<VistaPaginacion>
    decreases cs.len(),
{
    if cs.len() == 0 {
        Seq::empty()
    } else {
        paginas_de_respuestas(cs.drop_last()) + pagina_de_respuestas(cs.last())
    }
}

/// La página siguiente de comentarios principales, si la API la anuncia.
pub open spec fn pagina_siguiente(nextpage: Option<Seq<char>>) -> Seq<VistaPaginacion> {
    match nextpage {
        Some(testigo) => seq![VistaPaginacion { siguiente: testigo, id_asociado: None }],
        None => Seq::empty(),
    }
}

/// Cada página añadida tras las que quedan (`desde` en adelante) es la de respuestas
/// de un comentario recibido, con su testigo tal cual y asociada a su identificador, o
/// bien, la última, la página siguiente `nextpage`, sin comentario asociado.
pub open spec fn anadidas_anunciadas(
    desde: int,
    recibidos: Seq<VistaComentario>,
    nextpage: Option<Seq<char>>,
    despues: Seq<VistaPaginacion>,
) -> bool {
    forall|k: int| #![trigger despues[k]] desde <= k < despues.len() ==> {
        ||| (exists|j: int| #![trigger recibidos[j]] 0 <= j < recibidos.len()
            && recibidos[j].replies_page == Some(despues[k].siguiente)
            && despues[k].id_asociado == Some(recibidos[j].comment_id))
        ||| (k == despues.len() - 1 && nextpage == Some(despues[k].siguiente) && despues[k].id_asociado is None)
    }
}

/// Cada comentario recibido que anuncia respuestas tiene su página (su testigo tal
/// cual, asociada a su identificador) entre las añadidas desde `desde`.
pub open spec fn anuncios_encolados(
    desde: int,
    recibidos: Seq<VistaComentario>,
    despues: Seq<VistaPaginacion>,
) -> bool {
    forall|j: int| #![trigger recibidos[j]] 0 <= j < recibidos.len() && recibidos[j].replies_page is Some ==>
        exists|k: int| #![trigger despues[k]] desde <= k < despues.len()
            && despues[k].siguiente == recibidos[j].replies_page->Some_0
            && despues[k].id_asociado == Some(recibidos[j].comment_id)
}

/// `despues` son las páginas `antes` sin la primera, seguidas de las que anuncian los
/// comentarios `recibidos` y, al final, la página siguiente `nextpage` si la hay.
pub open spec fn paginas_encoladas(
    antes: Seq<VistaPaginacion>,
    recibidos: Seq<VistaComentario>,
    nextpage: Option<Seq<char>>,
    despues: Seq<VistaPaginacion>,
) -> bool {
    &&& despues.len() >= antes.len() - 1
    &&& despues.take(antes.len() - 1) == antes.drop_first()
    &&& anadidas_anunciadas(antes.len() - 1, recibidos, nextpage, despues)
    &&& anuncios_encolados(antes.len() - 1, recibidos, despues)
    &&& nextpage is Some ==> despues.len() > antes.len() - 1 && despues[despues.len() - 1] == VistaPaginacion {
        siguiente: nextpage->Some_0,
        id_asociado: None,
    }
}

/// Las páginas de respuestas que anuncian unos comentarios son exactamente las de los
/// comentarios con testigo, con ese testigo y su identificador.
proof fn lema_paginas_de_respuestas(cs: Seq<VistaComentario>)
    ensures
        forall|k: int| #![trigger paginas_de_respuestas(cs)[k]] 0 <= k < paginas_de_respuestas(cs).len() ==>
            exists|j: int| #![trigger cs[j]] 0 <= j < cs.len()
                && cs[j].replies_page == Some(paginas_de_respuestas(cs)[k].siguiente)
                && paginas_de_respuestas(cs)[k].id_asociado == Some(cs[j].comment_id),
        forall|j: int| #![trigger cs[j]] 0 <= j < cs.len() && cs[j].replies_page is Some ==>
            exists|k: int| #![trigger paginas_de_respuestas(cs)[k]] 0 <= k < paginas_de_respuestas(cs).len()
                && paginas_de_respuestas(cs)[k].siguiente == cs[j].replies_page->Some_0
                && paginas_de_respuestas(cs)[k].id_asociado == Some(cs[j].comment_id),
    decreases cs.len(),
{
    if cs.len() > 0 {
        let d = cs.drop_last();
        let n = cs.len() - 1;
        lema_paginas_de_respuestas(d);
        let pd = paginas_de_respuestas(d);
        let pc = paginas_de_respuestas(cs);
        assert(pc == pd + pagina_de_respuestas(cs[n]));
        assert forall|k: int| #![trigger pc[k]] 0 <= k < pc.len() implies
            exists|j: int| #![trigger cs[j]] 0 <= j < cs.len()
                && cs[j].replies_page == Some(pc[k].siguiente)
                && pc[k].id_asociado == Some(cs[j].comment_id) by {
            if k < pd.len() {
                assert(pc[k] == pd[k]);
                let j = choose|j: int| #![trigger d[j]] 0 <= j < d.len()
                    && d[j].replies_page == Some(pd[k].siguiente)
                    && pd[k].id_asociado == Some(d[j].comment_id);
                assert(cs[j] == d[j]);
            } else {
                assert(cs[n].replies_page == Some(pc[k].siguiente));
            }
        }
        assert forall|j: int| #![trigger cs[j]] 0 <= j < cs.len() && cs[j].replies_page is Some implies
            exists|k: int| #![trigger pc[k]] 0 <= k < pc.len()
                && pc[k].siguiente == cs[j].replies_page->Some_0
                && pc[k].id_asociado == Some(cs[j].comment_id) by {
            if j < n {
                assert(d[j] == cs[j]);
                let k = choose|k: int| #![trigger pd[k]] 0 <= k < pd.len()
                    && pd[k].siguiente == d[j].replies_page->Some_0
                    && pd[k].id_asociado == Some(d[j].comment_id);
                assert(pc[k] == pd[k]);
            } else {
                assert(pc[pd.len() as int] == pagina_de_respuestas(cs[n])[0]);
            }
        }
    }
}

/// Procesar una página quita la primera pendiente y encola, detrás de las demás, las
/// páginas de respuestas anunciadas (con su testigo tal cual) y la página siguiente.
pub proof fn lema_pagina_encola(
    pendientes: Seq<VistaPaginacion>,
    comentarios: Seq<VistaComentario>,
    nextpage: Option<Seq<char>>,
)
    requires
        pendientes.len() > 0,
    ensures
        paginas_encoladas(pendientes, comentarios, nextpage, pendientes_tras_pagina(pendientes, comentarios, nextpage)),
{
    let pr = paginas_de_respuestas(comentarios);
    let ps = pagina_siguiente(nextpage);
    let despues = pendientes_tras_pagina(pendientes, comentarios, nextpage);
    let quedan = pendientes.len() - 1;
    assert(despues =~= pendientes.drop_first() + pr + ps);
    assert(despues.take(quedan) =~= pendientes.drop_first());
    assert(anadidas_anunciadas(quedan, comentarios, nextpage, despues)) by {
        lema_paginas_de_respuestas(comentarios);
        assert forall|k: int| #![trigger despues[k]] quedan <= k < despues.len() implies {
            ||| (exists|j: int| #![trigger comentarios[j]] 0 <= j < comentarios.len()
                && comentarios[j].replies_page == Some(despues[k].siguiente)
                && despues[k].id_asociado == Some(comentarios[j].comment_id))
            ||| (k == despues.len() - 1 && nextpage == Some(despues[k].siguiente) && despues[k].id_asociado is None)
        } by {
            if k < quedan + pr.len() {
                assert(despues[k] == pr[k - quedan]);
            } else {
                assert(despues[k] == ps[k - quedan - pr.len()]);
            }
        }
    }
    assert(anuncios_encolados(quedan, comentarios, despues)) by {
        lema_paginas_de_respuestas(comentarios);
        assert forall|j: int| #![trigger comentarios[j]] 0 <= j < comentarios.len() && comentarios[j].replies_page is Some implies
            exists|k: int| #![trigger despues[k]] quedan <= k < despues.len()
                && despues[k].siguiente == comentarios[j].replies_page->Some_0
                && despues[k].id_asociado == Some(comentarios[j].comment_id) by {
            let m = choose|m: int| #![trigger pr[m]] 0 <= m < pr.len()
                && pr[m].siguiente == comentarios[j].replies_page->Some_0
                && pr[m].id_asociado == Some(comentarios[j].comment_id);
            assert(despues[quedan + m] == pr[m]);
        }
    }
    if nextpage is Some {
        assert(despues[despues.len() - 1] == ps[0]);
    }
}

/// Una petición de una página siguiente lleva como parámetro `nextpage` el testigo de
/// la página pendiente, sin cambiarlo, y la primera página no lleva parámetro.
pub proof fn lema_peticion_lleva_testigo(
    p: VistaPaginacion,
    base_piped: Seq<char>,
    youtube_id: Seq<char>,
    peticion: PeticionComentarios,
)
    requires
        peticion_para(p, base_piped, youtube_id, peticion),
    ensures
        p.siguiente.len() > 0 ==> peticion.nextpage is Some && peticion.nextpage->Some_0@ == p.siguiente,
        p.siguiente.len() == 0 ==> peticion.nextpage is None,
{
}

/// Un comentario tras recibir respuestas al comentario `padre`: si es ese comentario y
/// llegan respuestas, se añaden al final de las suyas.
pub open spec fn anadir_respuestas(c: VistaComentario, padre: Seq<char>, nuevas: Seq<VistaComentario>) -> VistaComentario {
    if c.comment_id == padre && nuevas.len() > 0 {
        VistaComentario {
            author: c.author,
            comment_text: c.comment_text,
            comment_id: c.comment_id,
            replies_page: c.replies_page,
            commented_time: c.commented_time,
            comments_collection: Some(respuestas(c) + nuevas),
        }
    } else {
        c
    }
}

/// Páginas pendientes tras procesar la primera: se quita y se añaden al final las
/// páginas de respuestas que anuncian sus comentarios y la página siguiente.
pub open spec fn pendientes_tras_pagina(
    pendientes: Seq<VistaPaginacion>,
    comentarios: Seq<VistaComentario>,
    nextpage: Option<Seq<char>>,
) -> Seq<VistaPaginacion> {
    (pendientes + paginas_de_respuestas(comentarios) + pagina_siguiente(nextpage)).drop_first()
}

/// Comentarios recuperados tras procesar la primera página pendiente: si no responde a
/// ningún comentario, sus comentarios se añaden como principales; si responde a uno,
/// se añaden como respuestas a los comentarios con ese identificador.
pub open spec fn recuperados_tras_pagina(
    pendientes: Seq<VistaPaginacion>,
    recuperados: Seq<VistaComentario>,
    comentarios: Seq<VistaComentario>,
) -> Seq<VistaComentario> {
    match pendientes[0].id_asociado {
        None => recuperados + comentarios.map_values(|c: VistaComentario| como_principal(c)),
        Some(padre) => recuperados.map_values(
            |c: VistaComentario|
                anadir_respuestas(c, padre, comentarios.map_values(|r: VistaComentario| como_respuesta(r))),
        ),
    }
}

/// Procesar una página no pierde nada de lo ya recuperado: los comentarios
/// principales siguen en su sitio con los mismos textos, sus respuestas solo crecen
/// por el final y ninguno desaparece.
pub proof fn lema_pagina_conserva_recuperados(
    pendientes: Seq<VistaPaginacion>,
    recuperados: Seq<VistaComentario>,
    comentarios: Seq<VistaComentario>,
)
    requires
        pendientes.len() > 0,
    ensures
        ({
            let nuevos = recuperados_tras_pagina(pendientes, recuperados, comentarios);
            &&& nuevos.len() >= recuperados.len()
            &&& forall|i: int| 0 <= i < recuperados.len() ==> {
                &&& (#[trigger] nuevos[i]).comment_id == recuperados[i].comment_id
                &&& nuevos[i].author == recuperados[i].author
                &&& nuevos[i].comment_text == recuperados[i].comment_text
                &&& nuevos[i].commented_time == recuperados[i].commented_time
                &&& nuevos[i].replies_page == recuperados[i].replies_page
                &&& respuestas(nuevos[i]).take(respuestas(recuperados[i]).len() as int) == respuestas(recuperados[i])
            }
        }),
{
    let nuevos = recuperados_tras_pagina(pendientes, recuperados, comentarios);
    assert forall|i: int| 0 <= i < recuperados.len() implies
        respuestas(#[trigger] nuevos[i]).take(respuestas(recuperados[i]).len() as int) == respuestas(recuperados[i]) by {
        let previas = respuestas(recuperados[i]);
        assert(respuestas(nuevos[i]).take(previas.len() as int) =~= previas);
    }
}

/// `despues` son los comentarios `antes` seguidos de los `recibidos`, guardados como
/// principales: cada uno con el autor, el texto, el identificador, el testigo de
/// respuestas y la fecha con que llegó, y sin respuestas.
pub open spec fn principales_guardados(
    antes: Seq<VistaComentario>,
    recibidos: Seq<VistaComentario>,
    despues: Seq<VistaComentario>,
) -> bool {
    &&& despues.len() == antes.len() + recibidos.len()
    &&& forall|i: int| 0 <= i < antes.len() ==> #[trigger] despues[i] == antes[i]
    &&& forall|j: int| #![trigger recibidos[j]] 0 <= j < recibidos.len() ==> {
        let g = despues[antes.len() + j];
        &&& g.author == recibidos[j].author
        &&& g.comment_text == recibidos[j].comment_text
        &&& g.comment_id == recibidos[j].comment_id
        &&& g.replies_page == recibidos[j].replies_page
        &&& g.commented_time == recibidos[j].commented_time
        &&& g.comments_collection is None
    }
}

/// `despues` son los comentarios `antes` tras colgar los `recibidos` como respuestas de
/// los comentarios con identificador `padre`: los demás no cambian; esos conservan sus
/// datos y sus respuestas previas, y detrás llevan, en orden, una respuesta por cada
/// comentario recibido con su autor, texto, identificador y fecha, sin testigo de
/// página ni respuestas propias. Sin comentarios recibidos nada cambia.
pub open spec fn respuestas_guardadas(
    antes: Seq<VistaComentario>,
    padre: Seq<char>,
    recibidos: Seq<VistaComentario>,
    despues: Seq<VistaComentario>,
) -> bool {
    &&& despues.len() == antes.len()
    &&& forall|i: int|
        0 <= i < antes.len() && !(antes[i].comment_id == padre && recibidos.len() > 0)
            ==> #[trigger] despues[i] == antes[i]
    &&& forall|i: int|
        #![trigger despues[i]]
        0 <= i < antes.len() && antes[i].comment_id == padre && recibidos.len() > 0 ==> {
            let previas = respuestas(antes[i]);
            &&& despues[i].author == antes[i].author
            &&& despues[i].comment_text == antes[i].comment_text
            &&& despues[i].comment_id == antes[i].comment_id
            &&& despues[i].replies_page == antes[i].replies_page
            &&& despues[i].commented_time == antes[i].commented_time
            &&& despues[i].comments_collection is Some
            &&& respuestas(despues[i]).len() == previas.len() + recibidos.len()
            &&& respuestas(despues[i]).take(previas.len() as int) == previas
            &&& forall|j: int| #![trigger recibidos[j]] 0 <= j < recibidos.len() ==> {
                let r = respuestas(despues[i])[previas.len() + j];
                &&& r.author == recibidos[j].author
                &&& r.comment_text == recibidos[j].comment_text
                &&& r.comment_id == recibidos[j].comment_id
                &&& r.commented_time == recibidos[j].commented_time
                &&& r.replies_page is None
                &&& r.comments_collection is None
            }
        }
}

/// Una página que no responde a ningún comentario guarda sus comentarios, tal como
/// llegaron y en orden, detrás de los ya recuperados.
pub proof fn lema_pagina_de_principales(
    pendientes: Seq<VistaPaginacion>,
    recuperados: Seq<VistaComentario>,
    comentarios: Seq<VistaComentario>,
)
    requires
        pendientes.len() > 0,
        pendientes[0].id_asociado is None,
    ensures
        principales_guardados(recuperados, comentarios, recuperados_tras_pagina(pendientes, recuperados, comentarios)),
{
}

/// Una página de respuestas cuelga sus comentarios, tal como llegaron y en orden, de
/// los comentarios a los que responde, sin tocar nada más.
pub proof fn lema_pagina_de_respuestas(
    pendientes: Seq<VistaPaginacion>,
    recuperados: Seq<VistaComentario>,
    comentarios: Seq<VistaComentario>,
)
    requires
        pendientes.len() > 0,
        pendientes[0].id_asociado is Some,
    ensures
        respuestas_guardadas(
            recuperados,
            pendientes[0].id_asociado->Some_0,
            comentarios,
            recuperados_tras_pagina(pendientes, recuperados, comentarios),
        ),
{
    let padre = pendientes[0].id_asociado->Some_0;
    let nuevos = recuperados_tras_pagina(pendientes, recuperados, comentarios);
    assert forall|i: int|
        #![trigger nuevos[i]]
        0 <= i < recuperados.len() && recuperados[i].comment_id == padre && comentarios.len() > 0 implies
            respuestas(nuevos[i]).take(respuestas(recuperados[i]).len() as int) == respuestas(recuperados[i]) by {
        assert(respuestas(nuevos[i]).take(respuestas(recuperados[i]).len() as int) =~= respuestas(recuperados[i]));
    }
}

/// Las respuestas guardadas están a un solo nivel: no llevan testigo de página de
/// respuestas ni respuestas propias.
pub open spec fn respuestas_planas(cs: Seq<VistaComentario>) -> bool {
    forall|i: int, j: int|
        0 <= i < cs.len() && 0 <= j < respuestas(cs[i]).len() ==> {
            &&& (#[trigger] respuestas(cs[i])[j]).replies_page is None
            &&& respuestas(cs[i])[j].comments_collection is None
        }
}

/// Procesar una página mantiene las respuestas a un solo nivel: como la recuperación
/// empieza sin comentarios, todas las respuestas recuperadas carecen de testigo de
/// página y de respuestas propias.
pub proof fn lema_respuestas_a_un_nivel(
    pendientes: Seq<VistaPaginacion>,
    recuperados: Seq<VistaComentario>,
    comentarios: Seq<VistaComentario>,
)
    requires
        pendientes.len() > 0,
        respuestas_planas(recuperados),
    ensures
        respuestas_planas(recuperados_tras_pagina(pendientes, recuperados, comentarios)),
{
    let nuevos = recuperados_tras_pagina(pendientes, recuperados, comentarios);
    assert forall|i: int, j: int|
        0 <= i < nuevos.len() && 0 <= j < respuestas(nuevos[i]).len() implies {
            &&& (#[trigger] respuestas(nuevos[i])[j]).replies_page is None
            &&& respuestas(nuevos[i])[j].comments_collection is None
        } by {
        match pendientes[0].id_asociado {
            None => {
                if i >= recuperados.len() {
                    assert(respuestas(nuevos[i]).len() == 0);
                } else {
                    assert(nuevos[i] == recuperados[i]);
                }
            },
            Some(padre) => {
                let anadidas = comentarios.map_values(|r: VistaComentario| como_respuesta(r));
                let previas = respuestas(recuperados[i]);
                if j >= previas.len() && recuperados[i].comment_id == padre && anadidas.len() > 0 {
                    assert(respuestas(nuevos[i])[j] == anadidas[j - previas.len()]);
                } else {
                    assert(respuestas(nuevos[i])[j] == previas[j]);
                }
            },
        }
    }
}

/// Una página de respuestas no añade comentarios principales: solo alarga las
/// respuestas de los comentarios a los que responde.
pub proof fn lema_respuestas_no_crean_principales(
    pendientes: Seq<VistaPaginacion>,
    recuperados: Seq<VistaComentario>,
    comentarios: Seq<VistaComentario>,
)
    requires
        pendientes.len() > 0,
        pendientes[0].id_asociado is Some,
    ensures
        recuperados_tras_pagina(pendientes, recuperados, comentarios).len() == recuperados.len(),
{
}

/// Procesar una página la quita de las pendientes y deja las demás en su orden,
/// delante de las que se añaden.
pub proof fn lema_pagina_consumida(
    pendientes: Seq<VistaPaginacion>,
    comentarios: Seq<VistaComentario>,
    nextpage: Option<Seq<char>>,
)
    requires
        pendientes.len() > 0,
    ensures
        ({
            let nuevas = pendientes_tras_pagina(pendientes, comentarios, nextpage);
            &&& nuevas.len() == pendientes.len() - 1 + paginas_de_respuestas(comentarios).len()
                + pagina_siguiente(nextpage).len()
            &&& nuevas.take(pendientes.len() - 1) == pendientes.drop_first()
        }),
{
    let nuevas = pendientes_tras_pagina(pendientes, comentarios, nextpage);
    assert(nuevas.take(pendientes.len() - 1) =~= pendientes.drop_first());
}

/// Una petición de una página de comentarios: la URL y, si no es la primera página,
/// el valor del parámetro `nextpage`.
#[derive(Debug)]
pub struct PeticionComentarios {
    pub endpoint: String,
    pub nextpage: Option<String>,
}

/// URL de la primera página de comentarios de un vídeo.
pub open spec fn url_primera_pagina(base_piped: Seq<char>, youtube_id: Seq<char>) -> Seq<char> {
    base_piped + "/comments/"@ + youtube_id
}

/// URL de las páginas siguientes de comentarios de un vídeo.
pub open spec fn url_pagina_siguiente(base_piped: Seq<char>, youtube_id: Seq<char>) -> Seq<char> {
    base_piped + "/nextpage/comments/"@ + youtube_id
}

/// La petición que corresponde a una página pendiente: la primera página si su testigo
/// está vacío, si no la página siguiente con ese testigo.
pub open spec fn peticion_para(
    p: VistaPaginacion,
    base_piped: Seq<char>,
    youtube_id: Seq<char>,
    peticion: PeticionComentarios,
) -> bool {
    if p.siguiente.len() == 0 {
        &&& peticion.endpoint@ == url_primera_pagina(base_piped, youtube_id)
        &&& peticion.nextpage is None
    } else {
        &&& peticion.endpoint@ == url_pagina_siguiente(base_piped, youtube_id)
        &&& vista_opcional(peticion.nextpage) == Some(p.siguiente)
    }
}

/// Copia de un comentario para guardarla como respuesta.
fn copia_respuesta(v: &Comentarios) -> (r: Comentarios)
    ensures
        vista_comentario(r) == como_respuesta(vista_comentario(*v)),
{
    Comentarios {
        author: v.author.clone(),
        comment_text: v.comment_text.clone(),
        comment_id: v.comment_id.clone(),
        replies_page: None,
        commented_time: v.commented_time.clone(),
        comments_collection: None,
    }
}

/// Copia de un comentario para guardarla como comentario principal.
fn copia_principal(v: &Comentarios) -> (r: Comentarios)
    ensures
        vista_comentario(r) == como_principal(vista_comentario(*v)),
{
    Comentarios {
        author: v.author.clone(),
        comment_text: v.comment_text.clone(),
        comment_id: v.comment_id.clone(),
        replies_page: copiar_opcional(&v.replies_page),
        commented_time: v.commented_time.clone(),
        comments_collection: None,
    }
}

/// Añade al final de `destino` los comentarios `nuevos` como comentarios principales.
fn anadir_principales(destino: &mut Vec<Comentarios>, nuevos: &Vec<Comentarios>)
    ensures
        vista_lista(*final(destino)) == vista_lista(*old(destino)) + vista_lista(*nuevos).map_values(
            |c: VistaComentario| como_principal(c),
        ),
{
    let ghost inicial = vista_lista(*destino);
    let ghost anadidos = vista_lista(*nuevos).map_values(|c: VistaComentario| como_principal(c));
    let n0 = destino.len();
    proof {
        lema_vista_lista(*destino);
        lema_vista_lista(*nuevos);
    }
    for i in 0..nuevos.len()
        invariant
            destino.len() == n0 + i,
            inicial.len() == n0,
            anadidos.len() == nuevos.len(),
            forall|j: int| 0 <= j < n0 ==> vista_comentario(#[trigger] destino@[j]) == inicial[j],
            forall|j: int| n0 <= j < n0 + i ==> vista_comentario(#[trigger] destino@[j]) == anadidos[j - n0],
            forall|j: int| 0 <= j < nuevos.len() ==> anadidos[j] == como_principal(vista_comentario(#[trigger] nuevos@[j])),
    {
        let copia = copia_principal(&nuevos[i]);
        destino.push(copia);
    }
    proof {
        lema_vista_lista_igual(*destino, inicial + anadidos);
    }
}

/// Añade los comentarios `nuevos`, como respuestas, a cada comentario de `destino`
/// cuyo identificador es `padre`.
fn anadir_a_padre(destino: &mut Vec<Comentarios>, padre: &String, nuevos: &Vec<Comentarios>)
    ensures
        vista_lista(*final(destino)) == vista_lista(*old(destino)).map_values(
            |c: VistaComentario|
                anadir_respuestas(c, padre@, vista_lista(*nuevos).map_values(|r: VistaComentario| como_respuesta(r))),
        ),
{
    let ghost inicial = vista_lista(*destino);
    let ghost anadidas = vista_lista(*nuevos).map_values(|r: VistaComentario| como_respuesta(r));
    proof {
        lema_vista_lista(*destino);
        lema_vista_lista(*nuevos);
    }
    let mut viejos: Vec<Comentarios> = Vec::new();
    std::mem::swap(&mut viejos, destino);
    let ghost viejos_iniciales = viejos@;
    for c in it: viejos
        invariant
            it.seq() == viejos_iniciales,
            inicial.len() == viejos_iniciales.len(),
            forall|j: int| 0 <= j < viejos_iniciales.len() ==> #[trigger] inicial[j] == vista_comentario(viejos_iniciales[j]),
            anadidas.len() == nuevos.len(),
            forall|j: int| 0 <= j < nuevos.len() ==> anadidas[j] == como_respuesta(vista_comentario(#[trigger] nuevos@[j])),
            destino.len() == it.index(),
            forall|j: int| 0 <= j < it.index() ==> vista_comentario(#[trigger] destino@[j]) == anadir_respuestas(inicial[j], padre@, anadidas),
    {
        let ghost indice = it.index();
        if nuevos.len() > 0 && c.comment_id == *padre {
            let Comentarios { author, comment_text, comment_id, replies_page, commented_time, comments_collection } = c;
            let ghost previas = respuestas(vista_comentario(c));
            let mut coleccion = match comments_collection {
                Some(v) => v,
                None => Vec::new(),
            };
            proof {
                lema_vista_lista(coleccion);
            }
            let n0 = coleccion.len();
            for k in 0..nuevos.len()
                invariant
                    coleccion.len() == n0 + k,
                    previas.len() == n0,
                    anadidas.len() == nuevos.len(),
                    forall|j: int| 0 <= j < nuevos.len() ==> anadidas[j] == como_respuesta(vista_comentario(#[trigger] nuevos@[j])),
                    forall|j: int| 0 <= j < n0 ==> vista_comentario(#[trigger] coleccion@[j]) == previas[j],
                    forall|j: int| n0 <= j < n0 + k ==> vista_comentario(#[trigger] coleccion@[j]) == anadidas[j - n0],
            {
                let copia = copia_respuesta(&nuevos[k]);
                coleccion.push(copia);
            }
            proof {
                lema_vista_lista_igual(coleccion, previas + anadidas);
            }
            destino.push(Comentarios {
                author,
                comment_text,
                comment_id,
                replies_page,
                commented_time,
                comments_collection: Some(coleccion),
            });
        } else {
            destino.push(c);
        }
    }
    proof {
        let objetivo = inicial.map_values(|c: VistaComentario| anadir_respuestas(c, padre@, anadidas));
        lema_vista_lista_igual(*destino, objetivo);
    }
}

/// Estado de la recuperación de comentarios: las páginas pendientes de pedir, en
/// orden, y los comentarios recuperados hasta ahora.
pub struct EstadoComentarios {
    paginacion: Vec<ComentariosPaginacion>,
    comentarios: Vec<Comentarios>,
}

impl EstadoComentarios {
    /// Páginas pendientes, la próxima primero.
    pub closed spec fn pendientes(&self) -> Seq<VistaPaginacion> {
        vista_paginas(self.paginacion@)
    }

    /// Comentarios recuperados hasta ahora.
    pub closed spec fn recuperados(&self) -> Seq<VistaComentario> {
        vista_lista(self.comentarios)
    }

    /// Estado inicial: pendiente solo la primera página, ningún comentario.
    pub fn nuevo() -> (e: EstadoComentarios)
        ensures
            e.pendientes() == pendientes_iniciales(),
            e.recuperados() == Seq::<VistaComentario>::empty(),
            respuestas_planas(e.recuperados()),
    {
        let mut paginacion: Vec<ComentariosPaginacion> = Vec::new();
        paginacion.push(ComentariosPaginacion { siguiente: String::new(), id_asociado: None });
        let e = EstadoComentarios { paginacion, comentarios: Vec::new() };
        proof {
            assert(e.pendientes() =~= seq![VistaPaginacion { siguiente: Seq::empty(), id_asociado: None }]);
            lema_vista_lista(e.comentarios);
            assert(e.recuperados() =~= Seq::<VistaComentario>::empty());
        }
        e
    }

    /// La próxima petición que hay que hacer, o `None` cuando no quedan páginas.
    pub fn siguiente_peticion(&self, base_piped: &str, youtube_id: &str) -> (r: Option<PeticionComentarios>)
        ensures
            r is None <==> self.pendientes().len() == 0,
            r is Some ==> peticion_para(self.pendientes()[0], base_piped@, youtube_id@, r->Some_0),
            r is Some && self.pendientes()[0].siguiente.len() == 0 ==> {
                &&& r->Some_0.endpoint@ == base_piped@ + "/comments/"@ + youtube_id@
                &&& r->Some_0.nextpage is None
            },
            r is Some && self.pendientes()[0].siguiente.len() > 0 ==> {
                &&& r->Some_0.endpoint@ == base_piped@ + "/nextpage/comments/"@ + youtube_id@
                &&& r->Some_0.nextpage is Some
                &&& r->Some_0.nextpage->Some_0@ == self.pendientes()[0].siguiente
            },
    {
        if self.paginacion.len() == 0 {
            return None;
        }
        let primera = &self.paginacion[0];
        assert(self.pendientes()[0] == vista_paginacion(self.paginacion@[0]));
        if primera.siguiente.as_str().is_empty() {
            let mut endpoint = String::from_str(base_piped);
            endpoint.append("/comments/");
            endpoint.append(youtube_id);
            Some(PeticionComentarios { endpoint, nextpage: None })
        } else {
            let mut endpoint = String::from_str(base_piped);
            endpoint.append("/nextpage/comments/");
            endpoint.append(youtube_id);
            Some(PeticionComentarios { endpoint, nextpage: Some(primera.siguiente.clone()) })
        }
    }

    /// Incorpora la página recibida para la primera página pendiente: la quita de las
    /// pendientes, encola las páginas de respuestas y la página siguiente que anuncia, y
    /// guarda sus comentarios como principales o como respuestas a su comentario.
    pub fn procesar_pagina(&mut self, pagina: ComentariosPiped)
        requires
            old(self).pendientes().len() > 0,
        ensures
            final(self).pendientes() == pendientes_tras_pagina(
                old(self).pendientes(),
                vista_lista(pagina.comments),
                vista_opcional(pagina.nextpage),
            ),
            final(self).recuperados() == recuperados_tras_pagina(
                old(self).pendientes(),
                old(self).recuperados(),
                vista_lista(pagina.comments),
            ),
            respuestas_planas(old(self).recuperados()) ==> respuestas_planas(final(self).recuperados()),
            paginas_encoladas(
                old(self).pendientes(),
                vista_lista(pagina.comments),
                vista_opcional(pagina.nextpage),
                final(self).pendientes(),
            ),
            old(self).pendientes()[0].id_asociado is None ==> principales_guardados(
                old(self).recuperados(),
                vista_lista(pagina.comments),
                final(self).recuperados(),
            ),
            old(self).pendientes()[0].id_asociado is Some ==> respuestas_guardadas(
                old(self).recuperados(),
                old(self).pendientes()[0].id_asociado->Some_0,
                vista_lista(pagina.comments),
                final(self).recuperados(),
            ),
    {
        proof {
            lema_pagina_encola(self.pendientes(), vista_lista(pagina.comments), vista_opcional(pagina.nextpage));
            if self.pendientes()[0].id_asociado is None {
                lema_pagina_de_principales(self.pendientes(), self.recuperados(), vista_lista(pagina.comments));
            } else {
                lema_pagina_de_respuestas(self.pendientes(), self.recuperados(), vista_lista(pagina.comments));
            }
            if respuestas_planas(self.recuperados()) {
                lema_respuestas_a_un_nivel(self.pendientes(), self.recuperados(), vista_lista(pagina.comments));
            }
        }
        let ghost pendientes0 = self.pendientes();
        let ghost recuperados0 = self.recuperados();
        let ghost vl = vista_lista(pagina.comments);
        proof {
            lema_vista_lista(pagina.comments);
        }
        let padre = copiar_opcional(&self.paginacion[0].id_asociado);
        assert(vista_opcional(padre) == pendientes0[0].id_asociado);
        let comments = &pagina.comments;
        for i in 0..comments.len()
            invariant
                comments == &pagina.comments,
                vl == vista_lista(pagina.comments),
                vl.len() == comments.len(),
                forall|j: int| 0 <= j < comments.len() ==> #[trigger] vl[j] == vista_comentario(comments@[j]),
                vista_paginas(self.paginacion@) == pendientes0 + paginas_de_respuestas(vl.take(i as int)),
                vista_lista(self.comentarios) == recuperados0,
        {
            let ghost antes = self.paginacion@;
            if let Some(testigo) = &comments[i].replies_page {
                let p = ComentariosPaginacion {
                    siguiente: testigo.clone(),
                    id_asociado: Some(comments[i].comment_id.clone()),
                };
                self.paginacion.push(p);
            }
            proof {
                assert(vl.take(i + 1).drop_last() =~= vl.take(i as int));
                assert(vista_paginas(self.paginacion@) =~= vista_paginas(antes) + pagina_de_respuestas(vl[i as int]));
            }
        }
        assert(vl.take(comments.len() as int) =~= vl);
        let ghost antes = self.paginacion@;
        match &pagina.nextpage {
            Some(testigo) => {
                self.paginacion.push(ComentariosPaginacion { siguiente: testigo.clone(), id_asociado: None });
            },
            None => {},
        }
        assert(vista_paginas(self.paginacion@) =~= vista_paginas(antes) + pagina_siguiente(vista_opcional(pagina.nextpage)));
        let ghost antes = self.paginacion@;
        self.paginacion.remove(0);
        assert(vista_paginas(self.paginacion@) =~= vista_paginas(antes).drop_first());
        match &padre {
            None => anadir_principales(&mut self.comentarios, comments),
            Some(id) => anadir_a_padre(&mut self.comentarios, id, comments),
        }
        proof {
            let r = recuperados_tras_pagina(pendientes0, recuperados0, vl);
            match vista_opcional(padre) {
                None => {
                    assert(self.recuperados() =~= r);
                },
                Some(p) => {
                    assert(self.recuperados() =~= r);
                },
            }
        }
    }

    /// Los comentarios recuperados, en orden.
    pub fn comentarios(self) -> (r: Vec<Comentarios>)
        ensures
            vista_lista(r) == self.recuperados(),
    {
        self.comentarios
    }
}

/// Patrón que localiza el identificador del vídeo en su página.
pub open spec fn patron_identificador() -> Seq<char> {
    "<meta itemprop=\"identifier\" content=\"(?<id>.*?)\">"@
}

/// Compila el patrón que localiza el identificador del vídeo.
pub fn expresion_identificador() -> (r: Result<ExpresionRegular, regex::Error>)
    ensures
        r is Ok <==> patron_compilable(patron_identificador()),
        r is Ok ==> r->Ok_0.patron() == patron_identificador(),
{
    ExpresionRegular::nueva("<meta itemprop=\"identifier\" content=\"(?<id>.*?)\">")
}

/// Mensaje cuando la página del vídeo no contiene su identificador.
pub open spec fn sin_identificador() -> Seq<char> {
    "no se ha podido localizar el identificador de YouTube, intentalo con una URL más común"@
}

/// Mensaje cuando el identificador encontrado no ocupa 11 bytes.
pub open spec fn identificador_incorrecto() -> Seq<char> {
    "no se ha podido localizar el identificador de 11 caracteres de YouTube, intentalo con una URL más común"@
}

/// Extrae el identificador del vídeo de su página (`respuesta`): el grupo `id` de la
/// primera coincidencia de `exp`, que debe ocupar 11 bytes en UTF-8.
pub fn recuperar_identificador_youtube(respuesta: &str, exp: &ExpresionRegular) -> (r: Result<String, ErrorBuscador>)
    ensures
        match captura_con_nombre(exp.patron(), respuesta@, "id"@) {
            None => r is Err && r->Err_0.estado == PASARELA_INCORRECTA
                && r->Err_0.mensaje@ == sin_identificador(),
            Some(id) => if vstd::utf8::encode_utf8(id).len() == 11 {
                r is Ok && r->Ok_0@ == id
            } else {
                r is Err && r->Err_0.estado == PASARELA_INCORRECTA
                    && r->Err_0.mensaje@ == identificador_incorrecto()
            },
        },
{
    match exp.capturar_grupo(respuesta, "id") {
        None => Err(ErrorBuscador::nuevo(
            PASARELA_INCORRECTA,
            "no se ha podido localizar el identificador de YouTube, intentalo con una URL más común",
        )),
        Some(id) => {
            if id.as_str().as_bytes().len() != 11 {
                Err(ErrorBuscador::nuevo(
                    PASARELA_INCORRECTA,
                    "no se ha podido localizar el identificador de 11 caracteres de YouTube, intentalo con una URL más común",
                ))
            } else {
                Ok(id)
            }
        },
    }
}

/// Mensaje cuando falta la URL base de la API de Piped.
pub open spec fn sin_base_piped() -> Seq<char> {
    "no se ha facilitado la base url de la API de Piped"@
}

/// Mensaje cuando falta el término de búsqueda en los comentarios.
pub open spec fn sin_busqueda_comentarios() -> Seq<char> {
    "no se ha facilitado el término de búsqueda"@
}

/// Comprueba que la solicitud trae la URL base de Piped y el término de búsqueda, y
/// devuelve ambos (término, URL base).
pub fn validar_solicitud_comentarios(solicitud: &Solicitud) -> (r: Result<(String, String), ErrorBuscador>)
    ensures
        solicitud.piped is None ==> r is Err && r->Err_0.estado == SOLICITUD_INCORRECTA
            && r->Err_0.mensaje@ == sin_base_piped(),
        solicitud.piped is Some && solicitud.busqueda is None ==> r is Err
            && r->Err_0.estado == SOLICITUD_INCORRECTA && r->Err_0.mensaje@ == sin_busqueda_comentarios(),
        solicitud.piped is Some && solicitud.busqueda is Some ==> r is Ok
            && r->Ok_0.0@ == solicitud.busqueda->Some_0@ && r->Ok_0.1@ == solicitud.piped->Some_0@,
{
    match &solicitud.piped {
        None => Err(ErrorBuscador::nuevo(
            SOLICITUD_INCORRECTA,
            "no se ha facilitado la base url de la API de Piped",
        )),
        Some(piped) => match &solicitud.busqueda {
            None => Err(ErrorBuscador::nuevo(SOLICITUD_INCORRECTA, "no se ha facilitado el término de búsqueda")),
            Some(busqueda) => Ok((busqueda.clone(), piped.clone())),
        },
    }
}

/// Número de comentarios y respuestas revisados en una lista de comentarios.
pub open spec fn total_revisados(cs: Seq<VistaComentario>) -> int
    decreases cs.len(),
{
    if cs.len() == 0 {
        0
    } else {
        total_revisados(cs.drop_last()) + 1 + respuestas(cs.last()).len()
    }
}

/// Lo que aporta un comentario a las coincidencias: él mismo (con sus respuestas) si
/// su texto coincide, seguido de sus respuestas cuyo texto coincide.
pub open spec fn coincidencias_de_comentario(c: VistaComentario, busqueda: Seq<char>) -> Seq<VistaComentario> {
    (if coinciden(c.comment_text, busqueda) {
        seq![c]
    } else {
        Seq::empty()
    }) + respuestas(c).filter(|r: VistaComentario| coinciden(r.comment_text, busqueda))
}

/// Coincidencias de una lista de comentarios, en orden.
pub open spec fn coincidencias_en(cs: Seq<VistaComentario>, busqueda: Seq<char>) -> Seq<VistaComentario>
    decreases cs.len(),
{
    if cs.len() == 0 {
        Seq::empty()
    } else {
        coincidencias_en(cs.drop_last(), busqueda) + coincidencias_de_comentario(cs.last(), busqueda)
    }
}

/// El total de un prefijo no supera el de la lista.
pub proof fn lema_total_prefijo(cs: Seq<VistaComentario>, i: int)
    requires
        0 <= i <= cs.len(),
    ensures
        0 <= total_revisados(cs.take(i)) <= total_revisados(cs),
    decreases cs.len(),
{
    if i == cs.len() {
        assert(cs.take(i) =~= cs);
        lema_total_no_negativo(cs);
    } else {
        assert(cs.drop_last().take(i) =~= cs.take(i));
        lema_total_prefijo(cs.drop_last(), i);
    }
}

/// El total de revisados nunca es negativo.
pub proof fn lema_total_no_negativo(cs: Seq<VistaComentario>)
    ensures
        total_revisados(cs) >= 0,
    decreases cs.len(),
{
    if cs.len() > 0 {
        lema_total_no_negativo(cs.drop_last());
    }
}

/// Nunca hay más coincidencias que comentarios y respuestas revisados.
pub proof fn lema_coincidencias_acotadas(cs: Seq<VistaComentario>, busqueda: Seq<char>)
    ensures
        coincidencias_en(cs, busqueda).len() <= total_revisados(cs),
    decreases cs.len(),
{
    if cs.len() > 0 {
        lema_coincidencias_acotadas(cs.drop_last(), busqueda);
        respuestas(cs.last()).lemma_filter_len(|r: VistaComentario| coinciden(r.comment_text, busqueda));
    }
}

/// Toda coincidencia tiene un texto que coincide con la búsqueda.
pub proof fn lema_coincidencias_coinciden(cs: Seq<VistaComentario>, busqueda: Seq<char>)
    ensures
        forall|i: int| 0 <= i < coincidencias_en(cs, busqueda).len()
            ==> coinciden(#[trigger] coincidencias_en(cs, busqueda)[i].comment_text, busqueda),
    decreases cs.len(),
{
    if cs.len() > 0 {
        lema_coincidencias_coinciden(cs.drop_last(), busqueda);
        let pred = |r: VistaComentario| coinciden(r.comment_text, busqueda);
        let previas = coincidencias_en(cs.drop_last(), busqueda);
        let propia: Seq<VistaComentario> = if coinciden(cs.last().comment_text, busqueda) {
            seq![cs.last()]
        } else {
            Seq::empty()
        };
        let filtradas = respuestas(cs.last()).filter(pred);
        assert forall|i: int| 0 <= i < coincidencias_en(cs, busqueda).len()
            implies coinciden(#[trigger] coincidencias_en(cs, busqueda)[i].comment_text, busqueda) by {
            if i >= previas.len() + propia.len() {
                respuestas(cs.last()).lemma_filter_pred(pred, i - previas.len() - propia.len());
            }
        }
    }
}

/// `x` es el comentario `i` de `cs` o una de sus respuestas.
pub open spec fn proviene_de_comentario(cs: Seq<VistaComentario>, x: VistaComentario, i: int) -> bool {
    0 <= i < cs.len() && (cs[i] == x || respuestas(cs[i]).contains(x))
}

/// `x` es uno de los comentarios de `cs` o una de sus respuestas.
pub open spec fn proviene_de(cs: Seq<VistaComentario>, x: VistaComentario) -> bool {
    exists|i: int| #[trigger] proviene_de_comentario(cs, x, i)
}

/// Toda coincidencia es uno de los comentarios revisados o una de sus respuestas.
pub proof fn lema_coincidencias_provienen(cs: Seq<VistaComentario>, busqueda: Seq<char>)
    ensures
        forall|k: int| 0 <= k < coincidencias_en(cs, busqueda).len()
            ==> proviene_de(cs, #[trigger] coincidencias_en(cs, busqueda)[k]),
    decreases cs.len(),
{
    if cs.len() > 0 {
        lema_coincidencias_provienen(cs.drop_last(), busqueda);
        let pred = |r: VistaComentario| coinciden(r.comment_text, busqueda);
        let ultimo = cs.last();
        let n = cs.len() - 1;
        let previas = coincidencias_en(cs.drop_last(), busqueda);
        let propia: Seq<VistaComentario> = if coinciden(ultimo.comment_text, busqueda) {
            seq![ultimo]
        } else {
            Seq::empty()
        };
        let filtradas = respuestas(ultimo).filter(pred);
        let todas = coincidencias_en(cs, busqueda);
        assert(todas == previas + (propia + filtradas));
        assert forall|k: int| 0 <= k < todas.len() implies proviene_de(cs, #[trigger] todas[k]) by {
            let x = todas[k];
            if k < previas.len() {
                let d = cs.drop_last();
                assert(x == previas[k]);
                assert(proviene_de(d, x));
                let i = choose|i: int| #[trigger] proviene_de_comentario(d, x, i);
                assert(cs[i] == d[i]);
                assert(proviene_de_comentario(cs, x, i));
            } else if k < previas.len() + propia.len() {
                assert(x == ultimo);
                assert(proviene_de_comentario(cs, x, n));
            } else {
                let m = k - previas.len() - propia.len();
                assert(x == filtradas[m]);
                assert(filtradas.contains(x));
                respuestas(ultimo).lemma_filter_contains_rev(pred, x);
                assert(proviene_de_comentario(cs, x, n));
            }
        }
    }
}

/// Revisar dos listas de comentarios seguidas cuenta lo mismo que revisar cada una, y
/// un comentario cuenta uno más sus respuestas.
pub proof fn lema_total_por_partes(a: Seq<VistaComentario>, b: Seq<VistaComentario>, c: VistaComentario)
    ensures
        total_revisados(a + b) == total_revisados(a) + total_revisados(b),
        total_revisados(seq![c]) == 1 + respuestas(c).len(),
    decreases b.len(),
{
    assert(seq![c].drop_last() =~= Seq::<VistaComentario>::empty());
    assert(total_revisados(seq![c].drop_last()) == 0);
    assert(seq![c].last() == c);
    if b.len() == 0 {
        assert(a + b =~= a);
    } else {
        lema_total_por_partes(a, b.drop_last(), c);
        assert((a + b).drop_last() =~= a + b.drop_last());
    }
}

/// Las coincidencias de dos listas seguidas son las de la primera seguidas de las de la
/// segunda, y las de un comentario que coincide empiezan por él.
pub proof fn lema_coincidencias_por_partes(
    a: Seq<VistaComentario>,
    b: Seq<VistaComentario>,
    c: VistaComentario,
    busqueda: Seq<char>,
)
    ensures
        coincidencias_en(a + b, busqueda) == coincidencias_en(a, busqueda) + coincidencias_en(b, busqueda),
        coinciden(c.comment_text, busqueda) ==> coincidencias_en(seq![c], busqueda).len() > 0
            && coincidencias_en(seq![c], busqueda)[0] == c,
    decreases b.len(),
{
    assert(seq![c].drop_last() =~= Seq::<VistaComentario>::empty());
    assert(coincidencias_en(Seq::<VistaComentario>::empty(), busqueda) =~= Seq::<VistaComentario>::empty());
    if b.len() == 0 {
        assert(a + b =~= a);
        assert(coincidencias_en(a, busqueda) + coincidencias_en(b, busqueda) =~= coincidencias_en(a, busqueda));
    } else {
        lema_coincidencias_por_partes(a, b.drop_last(), c, busqueda);
        assert((a + b).drop_last() =~= a + b.drop_last());
        assert((a + b).last() == b.last());
        assert(coincidencias_en(a + b, busqueda) =~= coincidencias_en(a, busqueda) + coincidencias_en(b, busqueda));
    }
}

/// No se pierde ninguna coincidencia: todo comentario y toda respuesta cuyo texto
/// coincide con la búsqueda está entre las coincidencias.
pub proof fn lema_coincidencias_completas(cs: Seq<VistaComentario>, busqueda: Seq<char>)
    ensures
        forall|i: int| 0 <= i < cs.len() && coinciden(cs[i].comment_text, busqueda)
            ==> coincidencias_en(cs, busqueda).contains(#[trigger] cs[i]),
        forall|i: int, j: int|
            0 <= i < cs.len() && 0 <= j < respuestas(cs[i]).len()
                && coinciden(respuestas(cs[i])[j].comment_text, busqueda)
            ==> coincidencias_en(cs, busqueda).contains(#[trigger] respuestas(cs[i])[j]),
    decreases cs.len(),
{
    if cs.len() > 0 {
        lema_coincidencias_completas(cs.drop_last(), busqueda);
        let pred = |r: VistaComentario| coinciden(r.comment_text, busqueda);
        let d = cs.drop_last();
        let n = cs.len() - 1;
        let ultimo = cs.last();
        let previas = coincidencias_en(d, busqueda);
        let propia: Seq<VistaComentario> = if coinciden(ultimo.comment_text, busqueda) {
            seq![ultimo]
        } else {
            Seq::empty()
        };
        let filtradas = respuestas(ultimo).filter(pred);
        let todas = coincidencias_en(cs, busqueda);
        assert(todas == previas + (propia + filtradas));
        assert forall|i: int| 0 <= i < cs.len() && coinciden(cs[i].comment_text, busqueda)
            implies todas.contains(#[trigger] cs[i]) by {
            if i < n {
                assert(d[i] == cs[i]);
                assert(previas.contains(d[i]));
                let k = choose|k: int| 0 <= k < previas.len() && previas[k] == d[i];
                assert(todas[k] == cs[i]);
            } else {
                assert(todas[previas.len() as int] == cs[i]);
            }
        }
        assert forall|i: int, j: int|
            0 <= i < cs.len() && 0 <= j < respuestas(cs[i]).len()
                && coinciden(respuestas(cs[i])[j].comment_text, busqueda)
            implies todas.contains(#[trigger] respuestas(cs[i])[j]) by {
            let x = respuestas(cs[i])[j];
            if i < n {
                assert(d[i] == cs[i]);
                assert(previas.contains(respuestas(d[i])[j]));
                let k = choose|k: int| 0 <= k < previas.len() && previas[k] == x;
                assert(todas[k] == x);
            } else {
                respuestas(ultimo).lemma_filter_contains(pred, j);
                assert(filtradas.contains(x));
                let k = choose|k: int| 0 <= k < filtradas.len() && filtradas[k] == x;
                assert(todas[previas.len() + propia.len() + k] == x);
            }
        }
    }
}

/// Selecciona, entre los comentarios recuperados, los que coinciden con la búsqueda y
/// las respuestas que coinciden, y cuenta cuántos comentarios y respuestas se han
/// revisado. `serializacion` son los comentarios ya serializados.
pub fn buscar_comentarios(comentarios: Vec<Comentarios>, busqueda: &str, serializacion: String) -> (r: ComentariosRespuesta)
    requires
        total_revisados(vista_lista(comentarios)) <= i32::MAX,
    ensures
        vista_lista(r.coincidencias) == coincidencias_en(vista_lista(comentarios), busqueda@),
        r.total == total_revisados(vista_lista(comentarios)),
        r.serializacion == serializacion,
        forall|i: int|
            0 <= i < vista_lista(comentarios).len()
                && coinciden(vista_lista(comentarios)[i].comment_text, busqueda@)
            ==> vista_lista(r.coincidencias).contains(#[trigger] vista_lista(comentarios)[i]),
        forall|i: int, j: int|
            0 <= i < vista_lista(comentarios).len()
                && 0 <= j < respuestas(vista_lista(comentarios)[i]).len()
                && coinciden(respuestas(vista_lista(comentarios)[i])[j].comment_text, busqueda@)
            ==> vista_lista(r.coincidencias).contains(#[trigger] respuestas(vista_lista(comentarios)[i])[j]),
        forall|k: int| 0 <= k < vista_lista(r.coincidencias).len() ==> {
            &&& coinciden((#[trigger] vista_lista(r.coincidencias)[k]).comment_text, busqueda@)
            &&& proviene_de(vista_lista(comentarios), vista_lista(r.coincidencias)[k])
        },
{
    let ghost vl = vista_lista(comentarios);
    let ghost inicial = comentarios@;
    proof {
        lema_vista_lista(comentarios);
    }
    let mut coincidencias: Vec<Comentarios> = Vec::new();
    let ghost mut objetivo: Seq<VistaComentario> = Seq::empty();
    let mut total: i32 = 0;
    for c in it: comentarios
        invariant
            it.seq() == inicial,
            vl.len() == inicial.len(),
            forall|j: int| 0 <= j < inicial.len() ==> #[trigger] vl[j] == vista_comentario(inicial[j]),
            total_revisados(vl) <= i32::MAX,
            total == total_revisados(vl.take(it.index() as int)),
            objetivo == coincidencias_en(vl.take(it.index() as int), busqueda@),
            coincidencias.len() == objetivo.len(),
            forall|j: int| 0 <= j < objetivo.len() ==> vista_comentario(#[trigger] coincidencias@[j]) == objetivo[j],
    {
        let ghost indice = it.index() as int;
        let ghost vc = vista_comentario(c);
        proof {
            assert(vl.take(indice + 1).drop_last() =~= vl.take(indice));
            assert(vl.take(indice + 1).last() == vc);
            lema_total_prefijo(vl, indice + 1);
        }
        total = total + 1;
        if existe_coincidencia(c.comment_text.as_str(), busqueda) {
            let copia = c.duplicar();
            coincidencias.push(copia);
            proof {
                objetivo = objetivo.push(vc);
            }
        }
        let ghost parcial = objetivo;
        match c.comments_collection {
            None => {
                proof {
                    reveal(Seq::filter);
                    assert(respuestas(vc).filter(|r: VistaComentario| coinciden(r.comment_text, busqueda@)) =~= Seq::<VistaComentario>::empty());
                }
            },
            Some(rs) => {
                let ghost vr = vista_lista(rs);
                let ghost rs0 = rs@;
                proof {
                    lema_vista_lista(rs);
                }
                for r in it2: rs
                    invariant
                        it2.seq() == rs0,
                        vr.len() == rs0.len(),
                        vr == respuestas(vc),
                        forall|j: int| 0 <= j < rs0.len() ==> #[trigger] vr[j] == vista_comentario(rs0[j]),
                        total_revisados(vl) <= i32::MAX,
                        total_revisados(vl.take(indice + 1)) <= total_revisados(vl),
                        total_revisados(vl.take(indice + 1)) == total_revisados(vl.take(indice)) + 1 + vr.len(),
                        total == total_revisados(vl.take(indice)) + 1 + it2.index(),
                        objetivo == parcial + vr.take(it2.index() as int).filter(
                            |r: VistaComentario| coinciden(r.comment_text, busqueda@),
                        ),
                        coincidencias.len() == objetivo.len(),
                        forall|j: int| 0 <= j < objetivo.len() ==> vista_comentario(#[trigger] coincidencias@[j]) == objetivo[j],
                {
                    let ghost k = it2.index() as int;
                    let ghost vrk = vista_comentario(r);
                    proof {
                        reveal(Seq::filter);
                        assert(vr.take(k + 1).drop_last() =~= vr.take(k));
                        assert(vr.take(k + 1).last() == vrk);
                    }
                    total = total + 1;
                    if existe_coincidencia(r.comment_text.as_str(), busqueda) {
                        coincidencias.push(r);
                        proof {
                            objetivo = objetivo.push(vrk);
                        }
                    }
                }
                proof {
                    assert(vr.take(vr.len() as int) =~= vr);
                }
            },
        }
        proof {
            assert(objetivo =~= coincidencias_en(vl.take(indice), busqueda@) + coincidencias_de_comentario(vc, busqueda@));
        }
    }
    proof {
        assert(vl.take(vl.len() as int) =~= vl);
        lema_vista_lista_igual(coincidencias, objetivo);
        lema_coincidencias_completas(vl, busqueda@);
        lema_coincidencias_coinciden(vl, busqueda@);
        lema_coincidencias_provienen(vl, busqueda@);
    }
    ComentariosRespuesta { coincidencias, total, serializacion }
}

/// Modelo de una página de comentarios recibida: sus comentarios y el testigo de la
/// página siguiente, si lo trae.
pub struct VistaPagina {
    pub comentarios: Seq<VistaComentario>,
    pub nextpage: Option<Seq<char>>,
}

/// Páginas pendientes al empezar: solo la primera.
pub open spec fn pendientes_iniciales() -> Seq<VistaPaginacion> {
    seq![VistaPaginacion { siguiente: Seq::empty(), id_asociado: None }]
}

/// Páginas pendientes y comentarios recuperados tras procesar en orden, desde el estado
/// inicial, las páginas recibidas (una página que llega sin ninguna pendiente no
/// cambia nada).
pub open spec fn tras_paginas(paginas: Seq<VistaPagina>) -> (Seq<VistaPaginacion>, Seq<VistaComentario>)
    decreases paginas.len(),
{
    if paginas.len() == 0 {
        (pendientes_iniciales(), Seq::empty())
    } else {
        let anterior = tras_paginas(paginas.drop_last());
        let pagina = paginas.last();
        if anterior.0.len() == 0 {
            anterior
        } else {
            (
                pendientes_tras_pagina(anterior.0, pagina.comentarios, pagina.nextpage),
                recuperados_tras_pagina(anterior.0, anterior.1, pagina.comentarios),
            )
        }
    }
}

/// En toda recuperación de comentarios, sean cuales sean las páginas recibidas, las
/// respuestas quedan a un solo nivel (sin testigo de página ni respuestas propias) y
/// cada coincidencia de cualquier búsqueda es uno de los comentarios recuperados o una
/// de sus respuestas.
pub proof fn lema_recuperacion_completa(paginas: Seq<VistaPagina>, busqueda: Seq<char>)
    ensures
        respuestas_planas(tras_paginas(paginas).1),
        forall|k: int| 0 <= k < coincidencias_en(tras_paginas(paginas).1, busqueda).len()
            ==> proviene_de(
            tras_paginas(paginas).1,
            #[trigger] coincidencias_en(tras_paginas(paginas).1, busqueda)[k],
        ),
    decreases paginas.len(),
{
    if paginas.len() > 0 {
        lema_recuperacion_completa(paginas.drop_last(), busqueda);
        let anterior = tras_paginas(paginas.drop_last());
        if anterior.0.len() > 0 {
            lema_respuestas_a_un_nivel(anterior.0, anterior.1, paginas.last().comentarios);
        }
    }
    lema_coincidencias_provienen(tras_paginas(paginas).1, busqueda);
}

} // verus!
