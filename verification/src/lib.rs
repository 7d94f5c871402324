//! Búsqueda de texto en las transcripciones y los comentarios de un vídeo de YouTube.
//!
//! La biblioteca reúne las reglas del buscador: la normalización y comparación de
//! textos, la extracción de datos de las páginas descargadas, la paginación de los
//! comentarios y la selección de coincidencias. La entrada y salida de red vive fuera.
use vstd::prelude::*;

pub mod comentarios;
pub mod comparar;
pub mod errores;
pub mod expresion;
pub mod modelos;
pub mod transcripcion;
pub mod transcripciones;

verus! {
}
