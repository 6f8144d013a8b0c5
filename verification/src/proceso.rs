//! Commands for the external tools, and what a bounded run of one can end in.
//!
//! The library starts no process. It says which command to run and for how
//! long to wait (`Orden`), and it reads what the wait observed (`Espera`):
//! the driver starts the process with its output discarded, waits up to the
//! limit, and kills the process when `cerrar` says so.

use vstd::prelude::*;

verus! {

/// Seconds that an image tool may run.
pub const LIMITE_IMAGEN: u64 = 10;

/// Seconds that the video transcoder may run.
pub const LIMITE_VIDEO: u64 = 20;

/// A command line and the time its process may take.
#[derive(Debug, PartialEq, Eq)]
pub struct Orden {
    pub programa: String,
    pub argumentos: Vec<String>,
    pub limite_segundos: u64,
}

/// An `Orden` as plain values.
pub struct OrdenVista {
    pub programa: Seq<char>,
    pub argumentos: Seq<Seq<char>>,
    pub limite_segundos: u64,
}

impl View for Orden {
    type V = OrdenVista;

    open spec fn view(&self) -> OrdenVista {
        OrdenVista {
            programa: self.programa@,
            argumentos: self.argumentos.deep_view(),
            limite_segundos: self.limite_segundos,
        }
    }
}

/// How a bounded run ended.
#[derive(Clone, Copy, Debug, PartialEq, Eq, Structural)]
pub enum ResultadoProceso {
    /// The process ended with status zero within the limit.
    Exito,
    /// The process ended within the limit with another status; the code is
    /// absent when a signal ended it.
    FalloHerramienta(Option<i32>),
    /// The limit passed and the process was still running.
    TiempoAgotado,
}

/// What the wait on a started process observed.
#[derive(Clone, Copy, Debug, PartialEq, Eq, Structural)]
pub enum Espera {
    /// The process ended within the limit, with this exit code.
    Salio(Option<i32>),
    /// The limit passed first.
    Vencio,
}

/// What follows a wait: the outcome, and whether the process has to be
/// killed.
#[derive(Clone, Copy, Debug, PartialEq, Eq, Structural)]
pub struct Cierre {
    pub resultado: ResultadoProceso,
    pub matar: bool,
}

/// The outcome that a wait amounts to.
pub open spec fn resultado_de(espera: Espera) -> ResultadoProceso {
    match espera {
        Espera::Salio(Some(0)) => ResultadoProceso::Exito,
        Espera::Salio(codigo) => ResultadoProceso::FalloHerramienta(codigo),
        Espera::Vencio => ResultadoProceso::TiempoAgotado,
    }
}

/// Classifies a wait. The process is killed exactly when the limit passed.
pub fn cerrar(espera: Espera) -> (c: Cierre)
    ensures
        c.resultado == resultado_de(espera),
        c.matar == (espera == Espera::Vencio),
        c.matar == (c.resultado == ResultadoProceso::TiempoAgotado),
{
    match espera {
        Espera::Salio(Some(0)) => Cierre { resultado: ResultadoProceso::Exito, matar: false },
        Espera::Salio(codigo) => Cierre {
            resultado: ResultadoProceso::FalloHerramienta(codigo),
            matar: false,
        },
        Espera::Vencio => Cierre { resultado: ResultadoProceso::TiempoAgotado, matar: true },
    }
}

/// What became of the request to run a command.
#[derive(Clone, Copy, Debug, PartialEq, Eq, Structural)]
pub enum Ejecucion {
    /// The process could not be started.
    NoLanzado,
    /// The process started, but waiting on it failed.
    EsperaFallida,
    /// The process ran and the wait was classified.
    Concluida(ResultadoProceso),
}

/// Why an operation on a file did not succeed.
#[derive(Clone, Copy, Debug, PartialEq, Eq, Structural)]
pub enum ErrorOperacion {
    /// The tool could not be started.
    NoLanzado,
    /// Waiting on the tool failed.
    EsperaFallida,
    /// The tool ended with a failure status.
    Herramienta(Option<i32>),
    /// The tool ran past its limit.
    TiempoAgotado,
    /// The tool reported success but its output file is not there.
    SinSalida,
    /// The size of a file could not be read.
    SinTamano,
    /// The new file could not be moved over the old one.
    NoReemplazado,
    /// The file is not of the kind that the operation works on.
    FormatoAjeno,
}

/// The error that a run other than a success amounts to.
pub open spec fn error_de(ejecucion: Ejecucion) -> ErrorOperacion {
    match ejecucion {
        Ejecucion::NoLanzado => ErrorOperacion::NoLanzado,
        Ejecucion::EsperaFallida => ErrorOperacion::EsperaFallida,
        Ejecucion::Concluida(ResultadoProceso::FalloHerramienta(c)) => ErrorOperacion::Herramienta(
            c,
        ),
        Ejecucion::Concluida(_) => ErrorOperacion::TiempoAgotado,
    }
}

/// Whether the run was a success.
pub open spec fn es_exito(ejecucion: Ejecucion) -> bool {
    ejecucion == Ejecucion::Concluida(ResultadoProceso::Exito)
}

/// What an operation built on one run ends in: done on success, and
/// otherwise the reason.
pub open spec fn desenlace_de(ejecucion: Ejecucion) -> Result<(), ErrorOperacion> {
    if es_exito(ejecucion) {
        Ok(())
    } else {
        Err(error_de(ejecucion))
    }
}

/// Reads the outcome of the one run that an in-place operation consists of.
pub fn desenlace(ejecucion: Ejecucion) -> (r: Result<(), ErrorOperacion>)
    ensures
        r == desenlace_de(ejecucion),
{
    match ejecucion {
        Ejecucion::Concluida(ResultadoProceso::Exito) => Ok(()),
        Ejecucion::NoLanzado => Err(ErrorOperacion::NoLanzado),
        Ejecucion::EsperaFallida => Err(ErrorOperacion::EsperaFallida),
        Ejecucion::Concluida(ResultadoProceso::FalloHerramienta(c)) => Err(
            ErrorOperacion::Herramienta(c),
        ),
        Ejecucion::Concluida(ResultadoProceso::TiempoAgotado) => Err(
            ErrorOperacion::TiempoAgotado,
        ),
    }
}

/// Something the driver is asked to do.
#[derive(Debug, PartialEq, Eq)]
pub enum Accion {
    /// Run the command with a bounded wait; answered by `Evento::Proceso`.
    Ejecutar(Orden),
    /// Read the size of a file; answered by `Evento::Tamano`.
    MedirArchivo(String),
    /// Look whether a file exists; answered by `Evento::Existencia`.
    ComprobarArchivo(String),
    /// Remove a file if it is there; answered by `Evento::Borrado`.
    BorrarArchivo(String),
    /// Move a file over another; answered by `Evento::Renombrado`.
    Renombrar { origen: String, destino: String },
    /// Read the cancellation flag; answered by `Evento::Cancelacion`.
    ConsultarCancelacion,
}

/// An `Accion` as plain values.
pub enum AccionVista {
    Ejecutar(OrdenVista),
    MedirArchivo(Seq<char>),
    ComprobarArchivo(Seq<char>),
    BorrarArchivo(Seq<char>),
    Renombrar { origen: Seq<char>, destino: Seq<char> },
    ConsultarCancelacion,
}

impl View for Accion {
    type V = AccionVista;

    open spec fn view(&self) -> AccionVista {
        match self {
            Accion::Ejecutar(o) => AccionVista::Ejecutar(o@),
            Accion::MedirArchivo(r) => AccionVista::MedirArchivo(r@),
            Accion::ComprobarArchivo(r) => AccionVista::ComprobarArchivo(r@),
            Accion::BorrarArchivo(r) => AccionVista::BorrarArchivo(r@),
            Accion::Renombrar { origen, destino } => AccionVista::Renombrar {
                origen: origen@,
                destino: destino@,
            },
            Accion::ConsultarCancelacion => AccionVista::ConsultarCancelacion,
        }
    }
}

/// The plain value of an action that may be absent.
pub open spec fn vista_de(accion: Option<Accion>) -> Option<AccionVista> {
    match accion {
        Some(a) => Some(a@),
        None => None,
    }
}

/// What the driver observed when it carried out an action.
#[derive(Clone, Copy, Debug, PartialEq, Eq, Structural)]
pub enum Evento {
    Proceso(Ejecucion),
    /// The size in bytes, absent when it could not be read.
    Tamano(Option<u64>),
    Existencia(bool),
    Borrado,
    /// Whether the file was moved.
    Renombrado(bool),
    /// Whether cancellation was requested.
    Cancelacion(bool),
}

/// The run that an event reports. An event of another kind counts as a wait
/// that failed.
pub open spec fn ejecucion_en(evento: Evento) -> Ejecucion {
    match evento {
        Evento::Proceso(e) => e,
        _ => Ejecucion::EsperaFallida,
    }
}

/// The size that an event reports; none for an event of another kind.
pub open spec fn tamano_en(evento: Evento) -> Option<u64> {
    match evento {
        Evento::Tamano(t) => t,
        _ => None,
    }
}

/// Whether the event reports that the file exists.
pub open spec fn existe_en(evento: Evento) -> bool {
    evento == Evento::Existencia(true)
}

/// Whether the event reports that the file was moved.
pub open spec fn renombrado_en(evento: Evento) -> bool {
    evento == Evento::Renombrado(true)
}

/// Whether the event reports that cancellation was requested.
pub open spec fn cancelacion_en(evento: Evento) -> bool {
    evento == Evento::Cancelacion(true)
}

/// The run that an event reports.
pub fn leer_ejecucion(evento: Evento) -> (e: Ejecucion)
    ensures
        e == ejecucion_en(evento),
{
    match evento {
        Evento::Proceso(e) => e,
        _ => Ejecucion::EsperaFallida,
    }
}

/// The size that an event reports.
pub fn leer_tamano(evento: Evento) -> (t: Option<u64>)
    ensures
        t == tamano_en(evento),
{
    match evento {
        Evento::Tamano(t) => t,
        _ => None,
    }
}

/// Whether the event reports that the file exists.
pub fn leer_existencia(evento: Evento) -> (b: bool)
    ensures
        b == existe_en(evento),
{
    match evento {
        Evento::Existencia(b) => b,
        _ => false,
    }
}

/// Whether the event reports that the file was moved.
pub fn leer_renombrado(evento: Evento) -> (b: bool)
    ensures
        b == renombrado_en(evento),
{
    match evento {
        Evento::Renombrado(b) => b,
        _ => false,
    }
}

/// Whether the event reports that cancellation was requested.
pub fn leer_cancelacion(evento: Evento) -> (b: bool)
    ensures
        b == cancelacion_en(evento),
{
    match evento {
        Evento::Cancelacion(b) => b,
        _ => false,
    }
}

} // verus!
