//! Choosing, out of a listing of paths, the files to work on.

use crate::clasificador::{
    categoria_de, lema_categoria_y_predicados, ruta_es_imagen, ruta_es_video, Archivo, Categoria,
};
use vstd::prelude::*;

verus! {

/// The paths of `rutas` that meet `criterio`, in the order of the listing.
pub open spec fn escoger(rutas: Seq<Seq<char>>, criterio: spec_fn(Seq<char>) -> bool) -> Seq<
    Seq<char>,
>
    decreases rutas.len(),
{
    if rutas.len() == 0 {
        Seq::empty()
    } else {
        let previas = escoger(rutas.drop_last(), criterio);
        if criterio(rutas.last()) {
            previas.push(rutas.last())
        } else {
            previas
        }
    }
}

/// Every chosen path meets the criterion and stands in the listing.
pub proof fn lema_escogidas(rutas: Seq<Seq<char>>, criterio: spec_fn(Seq<char>) -> bool)
    ensures
        escoger(rutas, criterio).len() <= rutas.len(),
        forall|i: int|
            0 <= i < escoger(rutas, criterio).len() ==> criterio(
                #[trigger] escoger(rutas, criterio)[i],
            ) && rutas.contains(escoger(rutas, criterio)[i]),
    decreases rutas.len(),
{
    if rutas.len() > 0 {
        let resto = rutas.drop_last();
        lema_escogidas(resto, criterio);
        let e = escoger(rutas, criterio);
        assert forall|i: int| 0 <= i < e.len() implies criterio(#[trigger] e[i]) && rutas.contains(
            e[i],
        ) by {
            if i < escoger(resto, criterio).len() {
                let x = escoger(resto, criterio)[i];
                assert(e[i] == x);
                let j = choose|j: int| 0 <= j < resto.len() && resto[j] == x;
                assert(rutas[j] == x);
            } else {
                assert(e[i] == rutas[rutas.len() - 1]);
            }
        }
    }
}

/// Every path of the listing that meets the criterion is chosen.
pub proof fn lema_ninguna_omitida(
    rutas: Seq<Seq<char>>,
    criterio: spec_fn(Seq<char>) -> bool,
    i: int,
)
    requires
        0 <= i < rutas.len(),
        criterio(rutas[i]),
    ensures
        escoger(rutas, criterio).contains(rutas[i]),
    decreases rutas.len(),
{
    let resto = rutas.drop_last();
    let e = escoger(rutas, criterio);
    if i == rutas.len() - 1 {
        assert(e[e.len() - 1] == rutas[i]);
    } else {
        lema_ninguna_omitida(resto, criterio, i);
        let previas = escoger(resto, criterio);
        let j = choose|j: int| 0 <= j < previas.len() && previas[j] == resto[i];
        assert(e[j] == rutas[i]);
    }
}

/// Where no path meets the criterion, nothing is chosen.
pub proof fn lema_nada_que_escoger(rutas: Seq<Seq<char>>, criterio: spec_fn(Seq<char>) -> bool)
    requires
        forall|i: int| 0 <= i < rutas.len() ==> !criterio(#[trigger] rutas[i]),
    ensures
        escoger(rutas, criterio) == Seq::<Seq<char>>::empty(),
    decreases rutas.len(),
{
    if rutas.len() > 0 {
        let resto = rutas.drop_last();
        assert forall|i: int| 0 <= i < resto.len() implies !criterio(#[trigger] resto[i]) by {
            assert(resto[i] == rutas[i]);
        }
        lema_nada_que_escoger(resto, criterio);
        assert(!criterio(rutas[rutas.len() - 1]));
    }
}

/// Whether a file is one to optimise: an image or a video.
pub open spec fn ruta_es_candidata(ruta: Seq<char>) -> bool {
    ruta_es_imagen(ruta) || ruta_es_video(ruta)
}

/// The files to optimise, in the order of the listing.
pub open spec fn candidatos(rutas: Seq<Seq<char>>) -> Seq<Seq<char>> {
    escoger(rutas, |r: Seq<char>| ruta_es_candidata(r))
}

/// The files to optimise are those that have a category.
pub proof fn lema_candidata(ruta: Seq<char>)
    ensures
        ruta_es_candidata(ruta) <==> categoria_de(ruta) != Categoria::Otro,
{
    lema_categoria_y_predicados(ruta);
}

/// Whether a file is one to optimise.
pub fn es_candidata(archivo: &Archivo) -> (r: bool)
    ensures
        r == ruta_es_candidata(archivo@),
{
    proof {
        lema_candidata(archivo@);
    }
    match archivo.categoria() {
        Categoria::Otro => false,
        _ => true,
    }
}

/// Classifies the files of a listing and picks the images and videos out of
/// it, keeping its order.
pub fn recolectar_archivos(rutas: &Vec<String>) -> (r: Vec<Archivo>)
    ensures
        r.deep_view() == candidatos(rutas.deep_view()),
{
    let ghost todas = rutas.deep_view();
    let ghost criterio = |r: Seq<char>| ruta_es_candidata(r);
    let mut r: Vec<Archivo> = Vec::new();
    let mut i: usize = 0;
    assert(r.deep_view() =~= escoger(todas.take(0), criterio));
    while i < rutas.len()
        invariant
            i <= rutas.len(),
            todas == rutas.deep_view(),
            criterio == |r: Seq<char>| ruta_es_candidata(r),
            r.deep_view() == escoger(todas.take(i as int), criterio),
        decreases rutas.len() - i,
    {
        let ghost antes = r.deep_view();
        assert(todas.take(i + 1).drop_last() == todas.take(i as int));
        assert(todas.take(i + 1).last() == rutas[i as int]@);
        let archivo = Archivo::nuevo(rutas[i].as_str());
        if es_candidata(&archivo) {
            r.push(archivo);
            assert(r.deep_view() =~= antes.push(rutas[i as int]@));
        }
        i += 1;
    }
    assert(todas.take(rutas.len() as int) == todas);
    r
}

} // verus!
