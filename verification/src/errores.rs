//! Errores con los que responde el buscador: código de estado HTTP y mensaje.
use vstd::prelude::*;

verus! {

/// Código de estado de una petición mal formada.
pub const SOLICITUD_INCORRECTA: u16 = 400;

/// Código de estado de un fallo interno al (de)serializar.
pub const ERROR_INTERNO: u16 = 500;

/// Código de estado de un fallo del servicio remoto consultado.
pub const PASARELA_INCORRECTA: u16 = 502;

/// Código de estado de una respuesta correcta.
pub const CORRECTO: u16 = 200;

/// Consulta a un servicio remoto que hace el buscador.
#[derive(Debug, Clone, Copy, PartialEq, Eq, Structural)]
pub enum Operacion {
    /// Descarga de la página del vídeo para localizar su identificador.
    IdentificadorYoutube,
    /// Descarga de la página del vídeo para localizar sus transcripciones.
    Transcripciones,
    /// Descarga de una transcripción.
    Transcripcion,
    /// Descarga de una página de comentarios.
    Comentarios,
}

/// Documento que el buscador (de)serializa.
#[derive(Debug, Clone, Copy, PartialEq, Eq, Structural)]
pub enum Documento {
    /// La lista de transcripciones que anuncia la página del vídeo.
    Transcripciones,
    /// Una transcripción descargada.
    Transcripcion,
    /// Una página de comentarios descargada.
    PaginaComentarios,
    /// Los comentarios recuperados, al serializarlos para la respuesta.
    ComentariosRecuperados,
}

/// Un error del buscador: el código de estado HTTP y el mensaje de texto.
#[derive(Debug)]
pub struct ErrorBuscador {
    pub estado: u16,
    pub mensaje: String,
}

/// Comienzo del mensaje cuando la petición no llega a enviarse.
pub open spec fn prefijo_fallo_envio(op: Operacion) -> Seq<char> {
    match op {
        Operacion::IdentificadorYoutube => "ha fallado la petición ha YouTube para buscar el identificador: "@,
        Operacion::Transcripciones => "ha fallado la petición a YouTube para buscar las transcripciones: "@,
        Operacion::Transcripcion => "ha fallado la petición a YouTube para buscar la transcripción en el idioma indicado: "@,
        Operacion::Comentarios => "ha fallado la petición para recuperar comentarios "@,
    }
}

/// Comienzo del mensaje cuando la respuesta no tiene el código 200.
pub open spec fn prefijo_estado_incorrecto(op: Operacion) -> Seq<char> {
    match op {
        Operacion::IdentificadorYoutube => "la petición ha YouTube para buscar el identificador ha devuelto un status code incorrecto: "@,
        Operacion::Transcripciones => "se ha obtenido un status code incorrecto al intentar recuperar las transcripciones: "@,
        Operacion::Transcripcion => "la petición a YouTube para la transcripción en el idioma indicado ha devuelto un status code incorrecto: "@,
        Operacion::Comentarios => "ha fallado la petición para recuperar comentarios devolviendo un status code incorrecto "@,
    }
}

/// Comienzo del mensaje cuando no se puede leer el cuerpo de la respuesta.
pub open spec fn prefijo_fallo_cuerpo(op: Operacion) -> Seq<char> {
    match op {
        Operacion::IdentificadorYoutube => "no se ha podido recuperar la respuesta de la petición a YouTube para buscar el identificador: "@,
        Operacion::Transcripciones => "ha fallado la recuperación del cuerpo de la respuesta de YouTube para buscar las transcripciones: "@,
        Operacion::Transcripcion => "ha fallado la recuperación del cuerpo de la respuesta de YouTube para buscar la transcripción en el idioma indicado: "@,
        Operacion::Comentarios => "ha fallado la obtención del cuerpo en una petición para recuperar comentarios "@,
    }
}

/// Comienzo del mensaje cuando un documento no se puede (de)serializar.
pub open spec fn prefijo_fallo_serializacion(doc: Documento) -> Seq<char> {
    match doc {
        Documento::Transcripciones => "no se ha podido deserializar las transcripciones encontradas: "@,
        Documento::Transcripcion => "no se ha podido deserializar la transcripción solicitada: "@,
        Documento::PaginaComentarios => "ha fallado la serialización del cuerpo en una petición para recuperar comentarios "@,
        Documento::ComentariosRecuperados => "ha fallado la serialización de los comentarios recuperados "@,
    }
}

fn texto_fallo_envio(op: Operacion) -> (r: String)
    ensures
        r@ == prefijo_fallo_envio(op),
{
    match op {
        Operacion::IdentificadorYoutube => String::from_str("ha fallado la petición ha YouTube para buscar el identificador: "),
        Operacion::Transcripciones => String::from_str("ha fallado la petición a YouTube para buscar las transcripciones: "),
        Operacion::Transcripcion => String::from_str("ha fallado la petición a YouTube para buscar la transcripción en el idioma indicado: "),
        Operacion::Comentarios => String::from_str("ha fallado la petición para recuperar comentarios "),
    }
}

fn texto_estado_incorrecto(op: Operacion) -> (r: String)
    ensures
        r@ == prefijo_estado_incorrecto(op),
{
    match op {
        Operacion::IdentificadorYoutube => String::from_str("la petición ha YouTube para buscar el identificador ha devuelto un status code incorrecto: "),
        Operacion::Transcripciones => String::from_str("se ha obtenido un status code incorrecto al intentar recuperar las transcripciones: "),
        Operacion::Transcripcion => String::from_str("la petición a YouTube para la transcripción en el idioma indicado ha devuelto un status code incorrecto: "),
        Operacion::Comentarios => String::from_str("ha fallado la petición para recuperar comentarios devolviendo un status code incorrecto "),
    }
}

fn texto_fallo_cuerpo(op: Operacion) -> (r: String)
    ensures
        r@ == prefijo_fallo_cuerpo(op),
{
    match op {
        Operacion::IdentificadorYoutube => String::from_str("no se ha podido recuperar la respuesta de la petición a YouTube para buscar el identificador: "),
        Operacion::Transcripciones => String::from_str("ha fallado la recuperación del cuerpo de la respuesta de YouTube para buscar las transcripciones: "),
        Operacion::Transcripcion => String::from_str("ha fallado la recuperación del cuerpo de la respuesta de YouTube para buscar la transcripción en el idioma indicado: "),
        Operacion::Comentarios => String::from_str("ha fallado la obtención del cuerpo en una petición para recuperar comentarios "),
    }
}

fn texto_fallo_serializacion(doc: Documento) -> (r: String)
    ensures
        r@ == prefijo_fallo_serializacion(doc),
{
    match doc {
        Documento::Transcripciones => String::from_str("no se ha podido deserializar las transcripciones encontradas: "),
        Documento::Transcripcion => String::from_str("no se ha podido deserializar la transcripción solicitada: "),
        Documento::PaginaComentarios => String::from_str("ha fallado la serialización del cuerpo en una petición para recuperar comentarios "),
        Documento::ComentariosRecuperados => String::from_str("ha fallado la serialización de los comentarios recuperados "),
    }
}

impl ErrorBuscador {
    /// Error con un código de estado y un mensaje fijo.
    pub fn nuevo(estado: u16, mensaje: &str) -> (e: ErrorBuscador)
        ensures
            e.estado == estado,
            e.mensaje@ == mensaje@,
    {
        ErrorBuscador { estado, mensaje: String::from_str(mensaje) }
    }

    /// La petición de `op` no se pudo enviar; `detalle` describe el fallo.
    pub fn fallo_envio(op: Operacion, detalle: &str) -> (e: ErrorBuscador)
        ensures
            e.estado == PASARELA_INCORRECTA,
            e.mensaje@ == prefijo_fallo_envio(op) + detalle@,
    {
        let mut mensaje = texto_fallo_envio(op);
        mensaje.append(detalle);
        ErrorBuscador { estado: PASARELA_INCORRECTA, mensaje }
    }

    /// No se pudo leer el cuerpo de la respuesta de `op`; `detalle` describe el fallo.
    pub fn fallo_cuerpo(op: Operacion, detalle: &str) -> (e: ErrorBuscador)
        ensures
            e.estado == PASARELA_INCORRECTA,
            e.mensaje@ == prefijo_fallo_cuerpo(op) + detalle@,
    {
        let mut mensaje = texto_fallo_cuerpo(op);
        mensaje.append(detalle);
        ErrorBuscador { estado: PASARELA_INCORRECTA, mensaje }
    }

    /// No se pudo (de)serializar `doc`; `detalle` describe el fallo.
    pub fn fallo_serializacion(doc: Documento, detalle: &str) -> (e: ErrorBuscador)
        ensures
            e.estado == ERROR_INTERNO,
            e.mensaje@ == prefijo_fallo_serializacion(doc) + detalle@,
    {
        let mut mensaje = texto_fallo_serializacion(doc);
        mensaje.append(detalle);
        ErrorBuscador { estado: ERROR_INTERNO, mensaje }
    }
}

/// Acepta la respuesta de `op` solo si su código de estado es 200; si no, el error
/// cita el estado recibido tal como se muestra (`estado_mostrado`).
pub fn comprobar_estado(op: Operacion, codigo: u16, estado_mostrado: &str) -> (r: Result<(), ErrorBuscador>)
    ensures
        r is Ok <==> codigo == CORRECTO,
        r is Err ==> r->Err_0.estado == PASARELA_INCORRECTA
            && r->Err_0.mensaje@ == prefijo_estado_incorrecto(op) + estado_mostrado@,
{
    if codigo == CORRECTO {
        Ok(())
    } else {
        let mut mensaje = texto_estado_incorrecto(op);
        mensaje.append(estado_mostrado);
        Err(ErrorBuscador { estado: PASARELA_INCORRECTA, mensaje })
    }
}

} // verus!
