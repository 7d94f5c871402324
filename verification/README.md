# buscador_contenido_youtube

Buscador de texto en las transcripciones y los comentarios de un vídeo de YouTube,
con la lógica verificada con Verus.

- `src/`: la biblioteca verificada.
  - `comparar`: normalización de textos (entidades HTML, minúsculas,
    transliteración a ASCII) y búsqueda de subcadenas.
  - `expresion`: expresiones regulares del crate `regex`.
  - `errores`: códigos de estado y mensajes de error.
  - `transcripciones`, `transcripcion`: localización de las transcripciones de un
    vídeo y búsqueda en una de ellas.
  - `comentarios`: identificador del vídeo, paginación de los comentarios de Piped y
    selección de coincidencias.
  - `modelos`: tipos de datos y su modelo matemático.
- `app/`: el servidor web (axum, reqwest, serde), que hace las peticiones de red y
  la (de)serialización y delega las decisiones en la biblioteca.
- `tests/`: pruebas de la biblioteca.
