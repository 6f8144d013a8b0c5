//! Sweeping the residual files that interrupted or failed runs leave behind.
//!
//! A file is residual when its name ends in one of a fixed set of suffixes;
//! the comparison tells upper case from lower case.

use crate::ordenes::temporal_video;
use crate::rutas::{
    caracteres, con_extension, lema_inicio_nombre, lema_nombre_de_derivada, lema_punto_extension,
    nombre_archivo, nombre_de, punto_extension, termina_con, termina_en,
};
use crate::seleccion::{escoger, lema_escogidas, lema_nada_que_escoger};
use vstd::prelude::*;

verus! {

/// Whether a file name ends in one of the residual suffixes.
pub open spec fn nombre_es_residual(nombre: Seq<char>) -> bool {
    ||| termina_en(nombre, ".opt.jpg"@)
    ||| termina_en(nombre, ".opt.jpeg"@)
    ||| termina_en(nombre, ".opt.png"@)
    ||| termina_en(nombre, ".opt.webp"@)
    ||| termina_en(nombre, ".opt.mp4"@)
    ||| termina_en(nombre, ".opt.mov"@)
    ||| termina_en(nombre, ".tmp.jpg"@)
    ||| termina_en(nombre, ".tmp.png"@)
    ||| termina_en(nombre, ".tmp.webp"@)
    ||| termina_en(nombre, ".tmp.mp4"@)
    ||| termina_en(nombre, ".tmp.mov"@)
}

/// Whether the file at `ruta` is residual.
pub open spec fn ruta_es_residual(ruta: Seq<char>) -> bool {
    nombre_es_residual(nombre_archivo(ruta))
}

/// The residual files of a listing, in its order: what a sweep removes.
pub open spec fn residuales(rutas: Seq<Seq<char>>) -> Seq<Seq<char>> {
    escoger(rutas, |r: Seq<char>| ruta_es_residual(r))
}

/// The files of a listing that a sweep leaves.
pub open spec fn restantes(rutas: Seq<Seq<char>>) -> Seq<Seq<char>> {
    escoger(rutas, |r: Seq<char>| !ruta_es_residual(r))
}

/// How many of the removals took effect.
pub open spec fn cuenta_borrados(resultados: Seq<bool>) -> nat
    decreases resultados.len(),
{
    if resultados.len() == 0 {
        0
    } else {
        cuenta_borrados(resultados.drop_last()) + if resultados.last() {
            1nat
        } else {
            0nat
        }
    }
}

fn termina(nombre: &Vec<char>, sufijo: &str) -> (r: bool)
    ensures
        r == termina_en(nombre@, sufijo@),
{
    let s = caracteres(sufijo);
    termina_con(nombre, &s)
}

/// Whether the file at `ruta` is residual.
pub fn es_residual(ruta: &str) -> (r: bool)
    ensures
        r == ruta_es_residual(ruta@),
{
    let letras = caracteres(ruta);
    let nombre = nombre_de(&letras);
    termina(&nombre, ".opt.jpg") || termina(&nombre, ".opt.jpeg") || termina(&nombre, ".opt.png")
        || termina(&nombre, ".opt.webp") || termina(&nombre, ".opt.mp4") || termina(
        &nombre,
        ".opt.mov",
    ) || termina(&nombre, ".tmp.jpg") || termina(&nombre, ".tmp.png") || termina(
        &nombre,
        ".tmp.webp",
    ) || termina(&nombre, ".tmp.mp4") || termina(&nombre, ".tmp.mov")
}

/// Picks the residual files out of a listing of files, keeping its order.
pub fn seleccionar_residuales(rutas: &Vec<String>) -> (r: Vec<String>)
    ensures
        r.deep_view() == residuales(rutas.deep_view()),
{
    let ghost todas = rutas.deep_view();
    let ghost criterio = |r: Seq<char>| ruta_es_residual(r);
    let mut r: Vec<String> = Vec::new();
    let mut i: usize = 0;
    while i < rutas.len()
        invariant
            i <= rutas.len(),
            todas == rutas.deep_view(),
            criterio == |r: Seq<char>| ruta_es_residual(r),
            r.deep_view() == escoger(todas.take(i as int), criterio),
        decreases rutas.len() - i,
    {
        assert(todas.take(i + 1).drop_last() == todas.take(i as int));
        if es_residual(rutas[i].as_str()) {
            r.push(rutas[i].clone());
        }
        i += 1;
    }
    assert(todas.take(rutas.len() as int) == todas);
    r
}

/// Counts the removals that took effect.
pub fn contar_borrados(resultados: &Vec<bool>) -> (n: usize)
    ensures
        n == cuenta_borrados(resultados@),
        n <= resultados.len(),
{
    let mut n: usize = 0;
    let mut i: usize = 0;
    while i < resultados.len()
        invariant
            i <= resultados.len(),
            n <= i,
            n == cuenta_borrados(resultados@.take(i as int)),
        decreases resultados.len() - i,
    {
        assert(resultados@.take(i + 1).drop_last() == resultados@.take(i as int));
        if resultados[i] {
            n += 1;
        }
        i += 1;
    }
    assert(resultados@.take(resultados.len() as int) == resultados@);
    n
}

/// A sweep whose removals all took effect leaves nothing for a second sweep:
/// among the files that remain none is residual, and a second sweep would
/// leave the same files.
pub proof fn lema_barrido_idempotente(rutas: Seq<Seq<char>>)
    ensures
        residuales(restantes(rutas)) == Seq::<Seq<char>>::empty(),
        residuales(restantes(rutas)).len() == 0,
        forall|i: int|
            0 <= i < restantes(rutas).len() ==> !ruta_es_residual(#[trigger] restantes(rutas)[i]),
{
    lema_escogidas(rutas, |r: Seq<char>| !ruta_es_residual(r));
    lema_nada_que_escoger(restantes(rutas), |r: Seq<char>| ruta_es_residual(r));
}

/// The temporary file into which a video is transcoded is residual: a sweep
/// removes what an interrupted transcoding leaves behind.
pub proof fn lema_temporal_es_residual(ruta: Seq<char>)
    requires
        nombre_archivo(ruta).len() > 0,
        nombre_archivo(ruta) != seq!['.', '.'],
    ensures
        ruta_es_residual(temporal_video(ruta)),
{
    reveal_strlit("opt.mp4");
    reveal_strlit("opt.mov");
    reveal_strlit(".opt.mp4");
    reveal_strlit(".opt.mov");
    lema_inicio_nombre(ruta);
    lema_punto_extension(ruta);
    let t = temporal_video(ruta);
    let tronco = match punto_extension(ruta) {
        Some(p) => ruta.subrange(0, p),
        None => ruta,
    };
    assert(t.subrange(0, tronco.len() as int) =~= ruta.subrange(0, tronco.len() as int));
    lema_nombre_de_derivada(ruta, t, tronco.len() as int);
    let nombre = nombre_archivo(t);
    let cola = nombre.subrange(nombre.len() - 8, nombre.len() as int);
    if t == con_extension(ruta, "opt.mov"@) {
        assert(cola =~= ".opt.mov"@);
    } else {
        assert(cola =~= ".opt.mp4"@);
    }
}

} // verus!
