//! Tipos de datos del buscador y su modelo matemático.
use vstd::prelude::*;

verus! {

/// Argumentos de la línea de órdenes.
#[derive(Debug)]
pub struct Argumentos {
    /// Puerto en el que se iniciará la aplicación web.
    pub port: i64,
}

/// Puerto que se usa cuando no se indica otro.
pub const PUERTO_POR_DEFECTO: i64 = 8080;

impl Default for Argumentos {
    fn default() -> (r: Argumentos)
        ensures
            r.port == PUERTO_POR_DEFECTO,
    {
        Argumentos { port: PUERTO_POR_DEFECTO }
    }
}

/// Solicitud que envía la página web: la URL del vídeo (o de la transcripción), el
/// término de búsqueda y la URL base de la API de Piped.
#[derive(Debug)]
pub struct Solicitud {
    pub url: String,
    pub busqueda: Option<String>,
    pub piped: Option<String>,
}

/// Una transcripción disponible para el vídeo: su URL y su idioma.
#[derive(Debug)]
pub struct CaptionTrack {
    pub base_url: String,
    pub language_code: String,
}

/// Respuesta a la búsqueda en una transcripción: las entradas que coinciden y la
/// transcripción completa serializada.
#[derive(Debug)]
pub struct RespuestaTranscripcion {
    pub coincidencias: Vec<Entrada>,
    pub serializacion: String,
}

/// Una transcripción: sus entradas en orden.
#[derive(Debug)]
pub struct Transcripcion {
    pub entradas: Vec<Entrada>,
}

/// Una entrada de una transcripción: inicio, duración y texto.
#[derive(Debug, Clone)]
pub struct Entrada {
    pub inicio: String,
    pub duracion: String,
    pub texto: String,
}

/// Una página de comentarios de la API de Piped: sus comentarios, el testigo de la
/// página siguiente (si la API lo entrega como texto) y si los comentarios están
/// desactivados.
#[derive(Default, Debug, Clone, PartialEq)]
pub struct ComentariosPiped {
    pub comments: Vec<Comentarios>,
    pub nextpage: Option<String>,
    pub disabled: bool,
}

/// Un comentario (o una respuesta) tal como lo maneja el buscador.
///
/// `replies_page` guarda el testigo de la página de respuestas cuando la API lo
/// entrega como texto; `comments_collection` las respuestas ya recuperadas.
#[derive(Default, Debug, PartialEq)]
pub struct Comentarios {
    pub author: String,
    pub comment_text: String,
    pub comment_id: String,
    pub replies_page: Option<String>,
    pub commented_time: String,
    pub comments_collection: Option<Vec<Comentarios>>,
}

/// Una página de comentarios pendiente de pedir: su testigo (vacío para la primera
/// página) y, si es una página de respuestas, el identificador del comentario al que
/// responden.
#[derive(Default, Debug, Clone, PartialEq)]
pub struct ComentariosPaginacion {
    pub siguiente: String,
    pub id_asociado: Option<String>,
}

/// Respuesta a la búsqueda en los comentarios: los que coinciden, cuántos comentarios
/// y respuestas se han revisado y todos los comentarios serializados.
#[derive(Debug)]
pub struct ComentariosRespuesta {
    pub coincidencias: Vec<Comentarios>,
    pub total: i32,
    pub serializacion: String,
}

/// Modelo de un comentario: sus textos y, si las tiene, sus respuestas.
pub struct VistaComentario {
    pub author: Seq<char>,
    pub comment_text: Seq<char>,
    pub comment_id: Seq<char>,
    pub replies_page: Option<Seq<char>>,
    pub commented_time: Seq<char>,
    pub comments_collection: Option<Seq<VistaComentario>>,
}

/// Modelo de una página pendiente.
pub struct VistaPaginacion {
    pub siguiente: Seq<char>,
    pub id_asociado: Option<Seq<char>>,
}

/// Modelo de un texto opcional.
pub open spec fn vista_opcional(t: Option<String>) -> Option<Seq<char>> {
    match t {
        Some(s) => Some(s@),
        None => None,
    }
}

/// Modelo de un comentario.
pub open spec fn vista_comentario(c: Comentarios) -> VistaComentario
    decreases c, 0nat,
{
    VistaComentario {
        author: c.author@,
        comment_text: c.comment_text@,
        comment_id: c.comment_id@,
        replies_page: vista_opcional(c.replies_page),
        commented_time: c.commented_time@,
        comments_collection: match c.comments_collection {
            Some(v) => Some(vista_prefijo(v, v.len() as nat)),
            None => None,
        },
    }
}

/// Modelo de los `n` primeros comentarios de un vector.
pub open spec fn vista_prefijo(v: Vec<Comentarios>, n: nat) -> Seq<VistaComentario>
    decreases v, n,
{
    if n == 0 || n > v.len() {
        Seq::empty()
    } else {
        proof {
            broadcast use vstd::std_specs::vec::axiom_vec_index_decreases;
            assert(decreases_to!(v => v[n - 1]));
        }
        vista_prefijo(v, (n - 1) as nat).push(vista_comentario(v[n - 1]))
    }
}

/// Modelo de un vector de comentarios.
pub open spec fn vista_lista(v: Vec<Comentarios>) -> Seq<VistaComentario> {
    vista_prefijo(v, v.len() as nat)
}

/// Modelo de una página pendiente.
pub open spec fn vista_paginacion(p: ComentariosPaginacion) -> VistaPaginacion {
    VistaPaginacion { siguiente: p.siguiente@, id_asociado: vista_opcional(p.id_asociado) }
}

/// Modelo de un vector de páginas pendientes.
pub open spec fn vista_paginas(v: Seq<ComentariosPaginacion>) -> Seq<VistaPaginacion> {
    v.map_values(|p: ComentariosPaginacion| vista_paginacion(p))
}

/// Las respuestas de un comentario (ninguna si no tiene colección).
pub open spec fn respuestas(c: VistaComentario) -> Seq<VistaComentario> {
    match c.comments_collection {
        Some(s) => s,
        None => Seq::empty(),
    }
}

/// El modelo de los `n` primeros comentarios es el de cada uno de ellos.
pub proof fn lema_vista_prefijo(v: Vec<Comentarios>, n: nat)
    requires
        n <= v.len(),
    ensures
        vista_prefijo(v, n).len() == n,
        forall|i: int| 0 <= i < n ==> #[trigger] vista_prefijo(v, n)[i] == vista_comentario(v@[i]),
    decreases n,
{
    if n > 0 {
        lema_vista_prefijo(v, (n - 1) as nat);
    }
}

/// El modelo de un vector de comentarios es el de cada uno de ellos.
pub proof fn lema_vista_lista(v: Vec<Comentarios>)
    ensures
        vista_lista(v).len() == v.len(),
        forall|i: int| 0 <= i < v.len() ==> #[trigger] vista_lista(v)[i] == vista_comentario(v@[i]),
{
    lema_vista_prefijo(v, v.len() as nat);
}

/// Dos vectores con los mismos modelos elemento a elemento tienen el mismo modelo.
pub proof fn lema_vista_lista_igual(a: Vec<Comentarios>, b: Seq<VistaComentario>)
    requires
        a.len() == b.len(),
        forall|i: int| 0 <= i < a.len() ==> vista_comentario(#[trigger] a@[i]) == b[i],
    ensures
        vista_lista(a) == b,
{
    lema_vista_lista(a);
    assert(vista_lista(a) =~= b);
}

pub(crate) fn copiar_opcional(t: &Option<String>) -> (r: Option<String>)
    ensures
        vista_opcional(r) == vista_opcional(*t),
{
    match t {
        Some(s) => Some(s.clone()),
        None => None,
    }
}

impl Clone for Comentarios {
    /// Copia completa del comentario, respuestas incluidas.
    fn clone(&self) -> (r: Comentarios)
        ensures
            vista_comentario(r) == vista_comentario(*self),
    {
        self.duplicar()
    }
}

impl Comentarios {
    /// Copia completa del comentario, respuestas incluidas.
    pub fn duplicar(&self) -> (r: Comentarios)
        ensures
            vista_comentario(r) == vista_comentario(*self),
        decreases self,
    {
        let coleccion = match &self.comments_collection {
            None => None,
            Some(v) => {
                let mut w: Vec<Comentarios> = Vec::new();
                for i in 0..v.len()
                    invariant
                        self.comments_collection == Some(*v),
                        w.len() == i,
                        forall|j: int| 0 <= j < i ==> vista_comentario(#[trigger] w@[j]) == vista_comentario(v@[j]),
                {
                    proof {
                        broadcast use vstd::std_specs::vec::axiom_vec_index_decreases;
                        let opt = self.comments_collection;
                        assert(decreases_to!(*self => opt));
                        assert(decreases_to!(opt => opt->Some_0));
                        assert(decreases_to!(*v => v[i as int]));
                        assert(decreases_to!(*self => v[i as int]));
                    }
                    let copia = v[i].duplicar();
                    w.push(copia);
                }
                proof {
                    lema_vista_lista(*v);
                    lema_vista_lista_igual(w, vista_lista(*v));
                }
                Some(w)
            },
        };
        Comentarios {
            author: self.author.clone(),
            comment_text: self.comment_text.clone(),
            comment_id: self.comment_id.clone(),
            replies_page: copiar_opcional(&self.replies_page),
            commented_time: self.commented_time.clone(),
            comments_collection: coleccion,
        }
    }
}

} // verus!
