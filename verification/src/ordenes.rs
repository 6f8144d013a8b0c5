//! The command line of each external tool.
//!
//! Every command writes to the file named by its last argument: the image
//! tools rewrite the image in place, the decoder and the encoder write the
//! file they are told to produce, and so does the transcoder.

use crate::clasificador::{es_mov, ruta_es_mov};
use crate::numeros::{decimal, texto_decimal};
use crate::proceso::{Orden, OrdenVista, LIMITE_IMAGEN, LIMITE_VIDEO};
use crate::rutas::{con_extension, reemplazar_extension};
use vstd::prelude::*;
use vstd::string::*;

verus! {

/// Highest quality at which a JPEG is kept.
pub const CALIDAD_JPG: u8 = 50;

/// Quality at which a WebP is encoded.
pub const CALIDAD_WEBP: u8 = 50;

/// The command that strips every metadata tag of an image, in place.
pub open spec fn orden_metadatos(ruta: Seq<char>) -> OrdenVista {
    OrdenVista {
        programa: "exiftool"@,
        argumentos: seq!["-overwrite_original"@, "-all="@, ruta],
        limite_segundos: LIMITE_IMAGEN,
    }
}

/// The command that re-encodes a JPEG in place, capped at `CALIDAD_JPG`.
pub open spec fn orden_jpg(ruta: Seq<char>) -> OrdenVista {
    OrdenVista {
        programa: "jpegoptim"@,
        argumentos: seq![
            "--strip-all"@,
            "--max"@,
            texto_decimal(CALIDAD_JPG as nat),
            "--quiet"@,
            ruta,
        ],
        limite_segundos: LIMITE_IMAGEN,
    }
}

/// The command that recompresses a PNG in place at the lowest effort level.
pub open spec fn orden_png(ruta: Seq<char>) -> OrdenVista {
    OrdenVista {
        programa: "optipng"@,
        argumentos: seq!["-o1"@, "-quiet"@, ruta],
        limite_segundos: LIMITE_IMAGEN,
    }
}

/// The JPEG that stands between a HEIC image and its WebP.
pub open spec fn intermedio_heic(ruta: Seq<char>) -> Seq<char> {
    con_extension(ruta, "jpg"@)
}

/// The WebP that takes the place of a HEIC image.
pub open spec fn salida_heic(ruta: Seq<char>) -> Seq<char> {
    con_extension(ruta, "webp"@)
}

/// The command that decodes a HEIC image into its intermediate JPEG.
pub open spec fn orden_decodificar(ruta: Seq<char>) -> OrdenVista {
    OrdenVista {
        programa: "heif-convert"@,
        argumentos: seq![ruta, intermedio_heic(ruta)],
        limite_segundos: LIMITE_IMAGEN,
    }
}

/// The command that encodes the intermediate JPEG of a HEIC image as WebP.
pub open spec fn orden_codificar(ruta: Seq<char>) -> OrdenVista {
    OrdenVista {
        programa: "cwebp"@,
        argumentos: seq![
            "-q"@,
            texto_decimal(CALIDAD_WEBP as nat),
            intermedio_heic(ruta),
            "-o"@,
            salida_heic(ruta),
        ],
        limite_segundos: LIMITE_IMAGEN,
    }
}

/// The file into which a video is transcoded: `.opt.mov` beside a MOV,
/// `.opt.mp4` beside any other.
pub open spec fn temporal_video(ruta: Seq<char>) -> Seq<char> {
    if ruta_es_mov(ruta) {
        con_extension(ruta, "opt.mov"@)
    } else {
        con_extension(ruta, "opt.mp4"@)
    }
}

/// The command that transcodes a video into its temporary file, at low
/// priority.
pub open spec fn orden_transcodificar(ruta: Seq<char>) -> OrdenVista {
    OrdenVista {
        programa: "nice"@,
        argumentos: seq![
            "-n"@,
            "10"@,
            "ffmpeg"@,
            "-threads"@,
            "2"@,
            "-i"@,
            ruta,
            "-vcodec"@,
            "libx264"@,
            "-crf"@,
            "30"@,
            "-preset"@,
            "ultrafast"@,
            "-acodec"@,
            "aac"@,
            "-b:a"@,
            "128k"@,
            "-y"@,
            temporal_video(ruta),
        ],
        limite_segundos: LIMITE_VIDEO,
    }
}

/// The file that a command writes: the one its last argument names.
pub open spec fn salida_de(orden: OrdenVista) -> Seq<char> {
    if orden.argumentos.len() > 0 {
        orden.argumentos.last()
    } else {
        Seq::empty()
    }
}

/// The files that the work on the file at `ruta` may read or write: the file
/// itself, the two that the conversion of a HEIC image produces, and the one
/// into which a video is transcoded.
pub open spec fn archivos_de(ruta: Seq<char>) -> Set<Seq<char>> {
    set![ruta, intermedio_heic(ruta), salida_heic(ruta), temporal_video(ruta)]
}

fn agregar(argumentos: &mut Vec<String>, texto: &str)
    ensures
        final(argumentos).deep_view() == old(argumentos).deep_view().push(texto@),
{
    argumentos.push(String::from_str(texto));
}

fn agregar_numero(argumentos: &mut Vec<String>, n: u64)
    ensures
        final(argumentos).deep_view() == old(argumentos).deep_view().push(texto_decimal(n as nat)),
{
    argumentos.push(decimal(n));
}

/// Builds the command that strips the metadata of an image.
pub fn armar_orden_metadatos(ruta: &str) -> (o: Orden)
    ensures
        o@ == orden_metadatos(ruta@),
{
    let mut argumentos: Vec<String> = Vec::new();
    agregar(&mut argumentos, "-overwrite_original");
    agregar(&mut argumentos, "-all=");
    agregar(&mut argumentos, ruta);
    assert(argumentos.deep_view() =~= orden_metadatos(ruta@).argumentos);
    Orden {
        programa: String::from_str("exiftool"),
        argumentos,
        limite_segundos: LIMITE_IMAGEN,
    }
}

/// Builds the command that optimises a JPEG.
pub fn armar_orden_jpg(ruta: &str) -> (o: Orden)
    ensures
        o@ == orden_jpg(ruta@),
{
    let mut argumentos: Vec<String> = Vec::new();
    agregar(&mut argumentos, "--strip-all");
    agregar(&mut argumentos, "--max");
    agregar_numero(&mut argumentos, CALIDAD_JPG as u64);
    agregar(&mut argumentos, "--quiet");
    agregar(&mut argumentos, ruta);
    assert(argumentos.deep_view() =~= orden_jpg(ruta@).argumentos);
    Orden {
        programa: String::from_str("jpegoptim"),
        argumentos,
        limite_segundos: LIMITE_IMAGEN,
    }
}

/// Builds the command that optimises a PNG.
pub fn armar_orden_png(ruta: &str) -> (o: Orden)
    ensures
        o@ == orden_png(ruta@),
{
    let mut argumentos: Vec<String> = Vec::new();
    agregar(&mut argumentos, "-o1");
    agregar(&mut argumentos, "-quiet");
    agregar(&mut argumentos, ruta);
    assert(argumentos.deep_view() =~= orden_png(ruta@).argumentos);
    Orden { programa: String::from_str("optipng"), argumentos, limite_segundos: LIMITE_IMAGEN }
}

/// The name of the intermediate JPEG of a HEIC image.
pub fn nombrar_intermedio_heic(ruta: &str) -> (r: String)
    ensures
        r@ == intermedio_heic(ruta@),
{
    reemplazar_extension(ruta, "jpg")
}

/// The name of the WebP that replaces a HEIC image.
pub fn nombrar_salida_heic(ruta: &str) -> (r: String)
    ensures
        r@ == salida_heic(ruta@),
{
    reemplazar_extension(ruta, "webp")
}

/// The name of the temporary file of a video.
pub fn nombrar_temporal_video(ruta: &str) -> (r: String)
    ensures
        r@ == temporal_video(ruta@),
{
    if es_mov(ruta) {
        reemplazar_extension(ruta, "opt.mov")
    } else {
        reemplazar_extension(ruta, "opt.mp4")
    }
}

/// Builds the command that decodes a HEIC image.
pub fn armar_orden_decodificar(ruta: &str) -> (o: Orden)
    ensures
        o@ == orden_decodificar(ruta@),
{
    let intermedio = nombrar_intermedio_heic(ruta);
    let mut argumentos: Vec<String> = Vec::new();
    agregar(&mut argumentos, ruta);
    agregar(&mut argumentos, intermedio.as_str());
    assert(argumentos.deep_view() =~= orden_decodificar(ruta@).argumentos);
    Orden {
        programa: String::from_str("heif-convert"),
        argumentos,
        limite_segundos: LIMITE_IMAGEN,
    }
}

/// Builds the command that encodes the intermediate JPEG as WebP.
pub fn armar_orden_codificar(ruta: &str) -> (o: Orden)
    ensures
        o@ == orden_codificar(ruta@),
{
    let intermedio = nombrar_intermedio_heic(ruta);
    let salida = nombrar_salida_heic(ruta);
    let mut argumentos: Vec<String> = Vec::new();
    agregar(&mut argumentos, "-q");
    agregar_numero(&mut argumentos, CALIDAD_WEBP as u64);
    agregar(&mut argumentos, intermedio.as_str());
    agregar(&mut argumentos, "-o");
    agregar(&mut argumentos, salida.as_str());
    assert(argumentos.deep_view() =~= orden_codificar(ruta@).argumentos);
    Orden { programa: String::from_str("cwebp"), argumentos, limite_segundos: LIMITE_IMAGEN }
}

/// Builds the command that transcodes a video.
pub fn armar_orden_transcodificar(ruta: &str) -> (o: Orden)
    ensures
        o@ == orden_transcodificar(ruta@),
{
    let temporal = nombrar_temporal_video(ruta);
    let mut argumentos: Vec<String> = Vec::new();
    agregar(&mut argumentos, "-n");
    agregar(&mut argumentos, "10");
    agregar(&mut argumentos, "ffmpeg");
    agregar(&mut argumentos, "-threads");
    agregar(&mut argumentos, "2");
    agregar(&mut argumentos, "-i");
    agregar(&mut argumentos, ruta);
    agregar(&mut argumentos, "-vcodec");
    agregar(&mut argumentos, "libx264");
    agregar(&mut argumentos, "-crf");
    agregar(&mut argumentos, "30");
    agregar(&mut argumentos, "-preset");
    agregar(&mut argumentos, "ultrafast");
    agregar(&mut argumentos, "-acodec");
    agregar(&mut argumentos, "aac");
    agregar(&mut argumentos, "-b:a");
    agregar(&mut argumentos, "128k");
    agregar(&mut argumentos, "-y");
    agregar(&mut argumentos, temporal.as_str());
    assert(argumentos.deep_view() =~= orden_transcodificar(ruta@).argumentos);
    Orden { programa: String::from_str("nice"), argumentos, limite_segundos: LIMITE_VIDEO }
}

} // verus!
