//! A model of the files and tools that the actions work on.
//!
//! The laws of the operations are stated over this model. A disk maps the
//! path of each file that exists to its size. A world fixes what is left to
//! the outside: how each command ends, what it leaves in the file it writes
//! to, and whether a size can be read or a file moved. A command changes no
//! file but the one it writes to, and a removal always takes effect.

use crate::ordenes::salida_de;
use crate::proceso::{AccionVista, Ejecucion, Evento, OrdenVista};
use vstd::prelude::*;

verus! {

/// The files that exist, each with its size in bytes.
pub type Disco = Map<Seq<char>, u64>;

/// What the outside decides.
pub struct Mundo {
    /// How the run of a command ends.
    pub corre: spec_fn(OrdenVista, Disco) -> Ejecucion,
    /// The size of what the command leaves in the file it writes to; none
    /// when that file is not there afterwards.
    pub escribe: spec_fn(OrdenVista, Disco) -> Option<u64>,
    /// Whether the size of an existing file can be read.
    pub mide: spec_fn(Seq<char>, Disco) -> bool,
    /// Whether an existing file can be moved over another.
    pub mueve: spec_fn(Seq<char>, Seq<char>, Disco) -> bool,
    /// Whether cancellation has been requested when the given number of
    /// files have been worked on.
    pub cancela: spec_fn(nat) -> bool,
}

/// Whether cancellation has been requested when `hechos` files have been
/// worked on.
pub open spec fn cancelacion_pedida(mundo: Mundo, hechos: nat) -> bool {
    (mundo.cancela)(hechos)
}

/// The disk after a command has run on it.
pub open spec fn disco_tras_orden(mundo: Mundo, disco: Disco, orden: OrdenVista) -> Disco {
    match (mundo.escribe)(orden, disco) {
        Some(n) => disco.insert(salida_de(orden), n),
        None => disco.remove(salida_de(orden)),
    }
}

/// Whether moving `origen` over `destino` succeeds on this disk.
pub open spec fn se_mueve(mundo: Mundo, disco: Disco, origen: Seq<char>, destino: Seq<char>)
    -> bool {
    disco.dom().contains(origen) && (mundo.mueve)(origen, destino, disco)
}

/// The event that answers an action, and the disk that the action leaves.
/// `hechos` is the number of files worked on so far.
pub open spec fn reaccion(mundo: Mundo, disco: Disco, hechos: nat, accion: AccionVista) -> (
    Evento,
    Disco,
) {
    match accion {
        AccionVista::Ejecutar(orden) => (
            Evento::Proceso((mundo.corre)(orden, disco)),
            disco_tras_orden(mundo, disco, orden),
        ),
        AccionVista::MedirArchivo(ruta) => (
            Evento::Tamano(
                if disco.dom().contains(ruta) && (mundo.mide)(ruta, disco) {
                    Some(disco[ruta])
                } else {
                    None
                },
            ),
            disco,
        ),
        AccionVista::ComprobarArchivo(ruta) => (
            Evento::Existencia(disco.dom().contains(ruta)),
            disco,
        ),
        AccionVista::BorrarArchivo(ruta) => (Evento::Borrado, disco.remove(ruta)),
        AccionVista::Renombrar { origen, destino } => if se_mueve(mundo, disco, origen, destino) {
            (Evento::Renombrado(true), disco.remove(origen).insert(destino, disco[origen]))
        } else {
            (Evento::Renombrado(false), disco)
        },
        AccionVista::ConsultarCancelacion => (
            Evento::Cancelacion(cancelacion_pedida(mundo, hechos)),
            disco,
        ),
    }
}

/// Whether the two disks agree on `ruta`: the file is on both, with the same
/// size, or on neither.
pub open spec fn coinciden_en(a: Disco, b: Disco, ruta: Seq<char>) -> bool {
    a.dom().contains(ruta) == b.dom().contains(ruta) && (a.dom().contains(ruta) ==> a[ruta]
        == b[ruta])
}

/// Whether two disks hold the same files, with the same sizes, apart from
/// the paths in `salvo`.
pub open spec fn iguales_salvo(a: Disco, b: Disco, salvo: Set<Seq<char>>) -> bool {
    forall|ruta: Seq<char>| !salvo.contains(ruta) ==> #[trigger] coinciden_en(a, b, ruta)
}

/// Whether the action refers to no file outside `archivos`: the file it
/// asks about, removes or moves is among them, and so is the file that its
/// command writes to.
pub open spec fn accion_referida(accion: AccionVista, archivos: Set<Seq<char>>) -> bool {
    match accion {
        AccionVista::Ejecutar(orden) => archivos.contains(salida_de(orden)),
        AccionVista::MedirArchivo(r) => archivos.contains(r),
        AccionVista::ComprobarArchivo(r) => archivos.contains(r),
        AccionVista::BorrarArchivo(r) => archivos.contains(r),
        AccionVista::Renombrar { origen, destino } => archivos.contains(origen)
            && archivos.contains(destino),
        AccionVista::ConsultarCancelacion => true,
    }
}

/// An action changes no file outside those it refers to.
pub proof fn lema_reaccion_local(
    mundo: Mundo,
    disco: Disco,
    hechos: nat,
    accion: AccionVista,
    archivos: Set<Seq<char>>,
)
    requires
        accion_referida(accion, archivos),
    ensures
        iguales_salvo(reaccion(mundo, disco, hechos, accion).1, disco, archivos),
{
}

} // verus!
