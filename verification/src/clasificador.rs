//! Classification of files by extension.
//!
//! A path belongs to a category when the ASCII lower-case form of its
//! extension is one of the category's extensions. Nothing else of the path is
//! looked at, and a path without an extension belongs to no category.

use crate::rutas::{caracteres, extension, extension_minuscula, minusculas, mismo_texto};
use vstd::prelude::*;
use vstd::string::*;

verus! {

/// What kind of media a file holds, as far as its extension tells.
#[derive(Clone, Copy, Debug, PartialEq, Eq, Structural)]
pub enum Categoria {
    ImagenJpg,
    ImagenPng,
    ImagenHeic,
    Video,
    Otro,
}

/// Whether the path has an extension whose lower-case form is `patron`.
pub open spec fn extension_es(ruta: Seq<char>, patron: Seq<char>) -> bool {
    match extension(ruta) {
        Some(e) => minusculas(e) == patron,
        None => false,
    }
}

/// Whether the path names a JPEG image: its extension is `jpg` or `jpeg`.
pub open spec fn ruta_es_imagen_jpg(ruta: Seq<char>) -> bool {
    extension_es(ruta, "jpg"@) || extension_es(ruta, "jpeg"@)
}

/// Whether the path names a PNG image: its extension is `png`.
pub open spec fn ruta_es_imagen_png(ruta: Seq<char>) -> bool {
    extension_es(ruta, "png"@)
}

/// Whether the path names a HEIC image: its extension is `heic`.
pub open spec fn ruta_es_imagen_heic(ruta: Seq<char>) -> bool {
    extension_es(ruta, "heic"@)
}

/// Whether the path names an image of one of the three kinds.
pub open spec fn ruta_es_imagen(ruta: Seq<char>) -> bool {
    ruta_es_imagen_jpg(ruta) || ruta_es_imagen_png(ruta) || ruta_es_imagen_heic(ruta)
}

/// Whether the path names an MP4 video: its extension is `mp4`.
pub open spec fn ruta_es_mp4(ruta: Seq<char>) -> bool {
    extension_es(ruta, "mp4"@)
}

/// Whether the path names a MOV video: its extension is `mov`.
pub open spec fn ruta_es_mov(ruta: Seq<char>) -> bool {
    extension_es(ruta, "mov"@)
}

/// Whether the path names a video of one of the two kinds.
pub open spec fn ruta_es_video(ruta: Seq<char>) -> bool {
    ruta_es_mp4(ruta) || ruta_es_mov(ruta)
}

/// The category of a path.
pub open spec fn categoria_de(ruta: Seq<char>) -> Categoria {
    if ruta_es_imagen_jpg(ruta) {
        Categoria::ImagenJpg
    } else if ruta_es_imagen_png(ruta) {
        Categoria::ImagenPng
    } else if ruta_es_imagen_heic(ruta) {
        Categoria::ImagenHeic
    } else if ruta_es_video(ruta) {
        Categoria::Video
    } else {
        Categoria::Otro
    }
}

/// The extensions of the categories are pairwise different texts.
pub proof fn lema_extensiones_distintas()
    ensures
        "jpg"@ != "jpeg"@,
        "jpg"@ != "png"@,
        "jpg"@ != "heic"@,
        "jpg"@ != "mp4"@,
        "jpg"@ != "mov"@,
        "jpeg"@ != "png"@,
        "jpeg"@ != "heic"@,
        "jpeg"@ != "mp4"@,
        "jpeg"@ != "mov"@,
        "png"@ != "heic"@,
        "png"@ != "mp4"@,
        "png"@ != "mov"@,
        "heic"@ != "mp4"@,
        "heic"@ != "mov"@,
        "mp4"@ != "mov"@,
{
    reveal_strlit("jpg");
    reveal_strlit("jpeg");
    reveal_strlit("png");
    reveal_strlit("heic");
    reveal_strlit("mp4");
    reveal_strlit("mov");
    assert("jpg"@.len() == 3 && "png"@.len() == 3 && "mp4"@.len() == 3 && "mov"@.len() == 3);
    assert("jpeg"@.len() == 4 && "heic"@.len() == 4);
    assert("jpg"@[0] != "png"@[0]);
    assert("jpg"@[0] != "mp4"@[0]);
    assert("jpg"@[0] != "mov"@[0]);
    assert("jpeg"@[0] != "heic"@[0]);
    assert("png"@[0] != "mp4"@[0]);
    assert("png"@[0] != "mov"@[0]);
    assert("heic"@[0] != "mp4"@[0]);
    assert("heic"@[0] != "mov"@[0]);
    assert("mp4"@[1] != "mov"@[1]);
}

/// Each of the five predicates says which category the path has: the
/// categories exclude one another.
pub proof fn lema_categoria_y_predicados(ruta: Seq<char>)
    ensures
        ruta_es_imagen_jpg(ruta) <==> categoria_de(ruta) == Categoria::ImagenJpg,
        ruta_es_imagen_png(ruta) <==> categoria_de(ruta) == Categoria::ImagenPng,
        ruta_es_imagen_heic(ruta) <==> categoria_de(ruta) == Categoria::ImagenHeic,
        ruta_es_video(ruta) <==> categoria_de(ruta) == Categoria::Video,
        ruta_es_imagen(ruta) <==> (categoria_de(ruta) == Categoria::ImagenJpg || categoria_de(ruta)
            == Categoria::ImagenPng || categoria_de(ruta) == Categoria::ImagenHeic),
        !(ruta_es_imagen(ruta) && ruta_es_video(ruta)),
{
    lema_extensiones_distintas();
}

/// Classification looks at the extension only: two paths with the same
/// extension have the same category.
pub proof fn lema_solo_extension(a: Seq<char>, b: Seq<char>)
    requires
        extension(a) == extension(b),
    ensures
        categoria_de(a) == categoria_de(b),
        ruta_es_imagen(a) == ruta_es_imagen(b),
        ruta_es_video(a) == ruta_es_video(b),
{
}

/// Classification does not tell upper case from lower case: two paths whose
/// extensions differ only in the case of their ASCII letters have the same
/// category.
pub proof fn lema_sin_distinguir_mayusculas(a: Seq<char>, b: Seq<char>)
    requires
        extension(a) is Some,
        extension(b) is Some,
        minusculas(extension(a)->0) == minusculas(extension(b)->0),
    ensures
        categoria_de(a) == categoria_de(b),
        ruta_es_imagen(a) == ruta_es_imagen(b),
        ruta_es_video(a) == ruta_es_video(b),
{
}

/// A path without an extension belongs to no category.
pub proof fn lema_sin_extension(ruta: Seq<char>)
    requires
        extension(ruta) is None,
    ensures
        categoria_de(ruta) == Categoria::Otro,
        !ruta_es_imagen(ruta),
        !ruta_es_video(ruta),
{
}

/// A file to work on: its path, and the category that the path gives it. The
/// category is fixed when the file is classified.
#[derive(Debug, PartialEq, Eq)]
pub struct Archivo {
    ruta: String,
    categoria: Categoria,
}

impl View for Archivo {
    type V = Seq<char>;

    /// The path of the file.
    closed spec fn view(&self) -> Seq<char> {
        self.ruta@
    }
}

impl DeepView for Archivo {
    type V = Seq<char>;

    open spec fn deep_view(&self) -> Seq<char> {
        self@
    }
}

impl Archivo {
    #[verifier::type_invariant]
    spec fn clasificado(&self) -> bool {
        self.categoria == categoria_de(self.ruta@)
    }

    /// Classifies the file at `ruta`.
    pub fn nuevo(ruta: &str) -> (a: Self)
        ensures
            a@ == ruta@,
    {
        Archivo { ruta: String::from_str(ruta), categoria: clasificar(ruta) }
    }

    /// The path of the file.
    pub fn ruta(&self) -> (r: &str)
        ensures
            r@ == self@,
    {
        self.ruta.as_str()
    }

    /// The category of the file.
    pub fn categoria(&self) -> (c: Categoria)
        ensures
            c == categoria_de(self@),
    {
        proof {
            use_type_invariant(self);
        }
        self.categoria
    }
}

/// Whether the lower-case extension `ext` is the text `patron`.
fn coincide(ext: &Option<Vec<char>>, patron: &str) -> (r: bool)
    ensures
        r == (ext matches Some(v) && v@ == patron@),
{
    match ext {
        Some(v) => {
            let p = caracteres(patron);
            mismo_texto(v, &p)
        },
        None => false,
    }
}

/// The category of a path.
pub fn clasificar(ruta: &str) -> (c: Categoria)
    ensures
        c == categoria_de(ruta@),
{
    let letras = caracteres(ruta);
    let ext = extension_minuscula(&letras);
    if coincide(&ext, "jpg") || coincide(&ext, "jpeg") {
        Categoria::ImagenJpg
    } else if coincide(&ext, "png") {
        Categoria::ImagenPng
    } else if coincide(&ext, "heic") {
        Categoria::ImagenHeic
    } else if coincide(&ext, "mp4") || coincide(&ext, "mov") {
        Categoria::Video
    } else {
        Categoria::Otro
    }
}

/// Whether the path names an image: a JPEG, a PNG or a HEIC file.
pub fn es_imagen(ruta: &str) -> (r: bool)
    ensures
        r == ruta_es_imagen(ruta@),
{
    let letras = caracteres(ruta);
    let ext = extension_minuscula(&letras);
    coincide(&ext, "jpg") || coincide(&ext, "jpeg") || coincide(&ext, "png") || coincide(
        &ext,
        "heic",
    )
}

/// Whether the path names a JPEG image (`jpg` or `jpeg`).
pub fn es_imagen_jpg(ruta: &str) -> (r: bool)
    ensures
        r == ruta_es_imagen_jpg(ruta@),
{
    let letras = caracteres(ruta);
    let ext = extension_minuscula(&letras);
    coincide(&ext, "jpg") || coincide(&ext, "jpeg")
}

/// Whether the path names a PNG image.
pub fn es_imagen_png(ruta: &str) -> (r: bool)
    ensures
        r == ruta_es_imagen_png(ruta@),
{
    let letras = caracteres(ruta);
    let ext = extension_minuscula(&letras);
    coincide(&ext, "png")
}

/// Whether the path names a HEIC image.
pub fn es_imagen_heic(ruta: &str) -> (r: bool)
    ensures
        r == ruta_es_imagen_heic(ruta@),
{
    let letras = caracteres(ruta);
    let ext = extension_minuscula(&letras);
    coincide(&ext, "heic")
}

/// Whether the path names a video (`mp4` or `mov`).
pub fn es_video(ruta: &str) -> (r: bool)
    ensures
        r == ruta_es_video(ruta@),
{
    let letras = caracteres(ruta);
    let ext = extension_minuscula(&letras);
    coincide(&ext, "mp4") || coincide(&ext, "mov")
}

/// Whether the path names an MP4 video.
pub fn es_mp4(ruta: &str) -> (r: bool)
    ensures
        r == ruta_es_mp4(ruta@),
{
    let letras = caracteres(ruta);
    let ext = extension_minuscula(&letras);
    coincide(&ext, "mp4")
}

/// Whether the path names a MOV video.
pub fn es_mov(ruta: &str) -> (r: bool)
    ensures
        r == ruta_es_mov(ruta@),
{
    let letras = caracteres(ruta);
    let ext = extension_minuscula(&letras);
    coincide(&ext, "mov")
}

} // verus!
