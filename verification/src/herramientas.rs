//! The external tools that a run needs, and the check that they are there.
//!
//! The tools are looked for one by one, in a fixed order, before any file is
//! touched. The first one that is absent ends the check: the tools after it
//! are not looked for.

use vstd::prelude::*;
use vstd::string::*;

verus! {

/// How many tools a run needs.
pub const NUMERO_HERRAMIENTAS: usize = 6;

/// The names of the tools, in the order in which they are looked for.
pub open spec fn herramientas_requeridas() -> Seq<Seq<char>> {
    seq!["jpegoptim"@, "optipng"@, "exiftool"@, "cwebp"@, "heif-convert"@, "ffmpeg"@]
}

/// The command that installs the tools.
pub open spec fn sugerencia_de_instalacion() -> Seq<char> {
    "sudo apt install jpegoptim optipng libimage-exiftool-perl webp libheif-examples ffmpeg"@
}

/// What the check does next.
#[derive(Debug, PartialEq, Eq)]
pub enum Sondeo {
    /// Look whether this tool can be found.
    Buscar(String),
    /// This tool is absent: the run cannot start.
    Falta(String),
    /// Every tool is there.
    Completo,
}

/// A `Sondeo` as plain values.
pub enum SondeoVista {
    Buscar(Seq<char>),
    Falta(Seq<char>),
    Completo,
}

impl View for Sondeo {
    type V = SondeoVista;

    open spec fn view(&self) -> SondeoVista {
        match self {
            Sondeo::Buscar(nombre) => SondeoVista::Buscar(nombre@),
            Sondeo::Falta(nombre) => SondeoVista::Falta(nombre@),
            Sondeo::Completo => SondeoVista::Completo,
        }
    }
}

/// The position of the first tool found absent among the first `n` answers;
/// `n` when none was.
pub open spec fn primera_ausente(halladas: Seq<bool>, n: int) -> int
    decreases n,
{
    if n <= 0 {
        0
    } else {
        let previa = primera_ausente(halladas, n - 1);
        if previa < n - 1 || !halladas[n - 1] {
            previa
        } else {
            n
        }
    }
}

/// How many of the answers count: no more than there are tools.
pub open spec fn vistas(halladas: Seq<bool>) -> int {
    if halladas.len() < NUMERO_HERRAMIENTAS {
        halladas.len() as int
    } else {
        NUMERO_HERRAMIENTAS as int
    }
}

/// What the check does next, given whether each tool looked for so far was
/// found: it stops at the first absent tool, looks for the next one while
/// all were found, and is complete when all six were.
pub open spec fn sondeo_tras(halladas: Seq<bool>) -> SondeoVista {
    let n = vistas(halladas);
    let k = primera_ausente(halladas, n);
    if k < n {
        SondeoVista::Falta(herramientas_requeridas()[k])
    } else if n < NUMERO_HERRAMIENTAS {
        SondeoVista::Buscar(herramientas_requeridas()[n])
    } else {
        SondeoVista::Completo
    }
}

/// `primera_ausente` is the first position, below `n`, of an answer that the
/// tool was not found.
pub proof fn lema_primera_ausente(halladas: Seq<bool>, n: int)
    requires
        0 <= n <= halladas.len(),
    ensures
        0 <= primera_ausente(halladas, n) <= n,
        forall|j: int| 0 <= j < primera_ausente(halladas, n) ==> #[trigger] halladas[j],
        primera_ausente(halladas, n) < n ==> !halladas[primera_ausente(halladas, n)],
    decreases n,
{
    if n > 0 {
        lema_primera_ausente(halladas, n - 1);
    }
}

/// The name of the tool at position `i`.
fn herramienta(i: usize) -> (nombre: &'static str)
    requires
        i < NUMERO_HERRAMIENTAS,
    ensures
        nombre@ == herramientas_requeridas()[i as int],
{
    if i == 0 {
        "jpegoptim"
    } else if i == 1 {
        "optipng"
    } else if i == 2 {
        "exiftool"
    } else if i == 3 {
        "cwebp"
    } else if i == 4 {
        "heif-convert"
    } else {
        "ffmpeg"
    }
}

/// The names of the tools, in the order in which they are looked for.
pub fn listar_herramientas() -> (nombres: Vec<String>)
    ensures
        nombres.deep_view() == herramientas_requeridas(),
{
    let mut nombres: Vec<String> = Vec::new();
    let mut i: usize = 0;
    while i < NUMERO_HERRAMIENTAS
        invariant
            i <= NUMERO_HERRAMIENTAS,
            nombres.len() == i,
            forall|j: int| 0 <= j < i ==> nombres[j]@ == herramientas_requeridas()[j],
        decreases NUMERO_HERRAMIENTAS - i,
    {
        nombres.push(String::from_str(herramienta(i)));
        i += 1;
    }
    nombres
}

/// The command that installs the tools.
pub fn sugerir_instalacion() -> (texto: &'static str)
    ensures
        texto@ == sugerencia_de_instalacion(),
{
    "sudo apt install jpegoptim optipng libimage-exiftool-perl webp libheif-examples ffmpeg"
}

/// Says what the check does next, given whether each tool looked for so far
/// was found.
pub fn sondear(halladas: &Vec<bool>) -> (s: Sondeo)
    ensures
        s@ == sondeo_tras(halladas@),
{
    let n: usize = if halladas.len() < NUMERO_HERRAMIENTAS {
        halladas.len()
    } else {
        NUMERO_HERRAMIENTAS
    };
    let mut i: usize = 0;
    while i < n
        invariant
            i <= n <= halladas.len(),
            n <= NUMERO_HERRAMIENTAS,
            n == vistas(halladas@),
            primera_ausente(halladas@, i as int) == i,
        decreases n - i,
    {
        if !halladas[i] {
            proof {
                lema_ausente_estable(halladas@, i as int, n as int);
            }
            return Sondeo::Falta(String::from_str(herramienta(i)));
        }
        i += 1;
    }
    if n < NUMERO_HERRAMIENTAS {
        Sondeo::Buscar(String::from_str(herramienta(n)))
    } else {
        Sondeo::Completo
    }
}

/// Once a tool was found absent, later answers do not change which one is
/// the first.
pub proof fn lema_ausente_estable(halladas: Seq<bool>, k: int, n: int)
    requires
        0 <= k < n <= halladas.len(),
        primera_ausente(halladas, k) == k,
        !halladas[k],
    ensures
        primera_ausente(halladas, n) == k,
    decreases n - k,
{
    if n > k + 1 {
        lema_ausente_estable(halladas, k, n - 1);
    }
}

} // verus!
