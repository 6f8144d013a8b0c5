//! The counters of a run.
//!
//! Each file that has been worked on adds its report to the counters once.
//! Only what succeeded is counted as done: a tool that failed or ran past its
//! limit adds nothing to the count of its operation.

use crate::tarea::{informe_coherente, InformeArchivo};
use vstd::prelude::*;

verus! {

/// What a run has done so far.
#[derive(Clone, Copy, Debug, PartialEq, Eq)]
pub struct Contadores {
    /// Images whose metadata was stripped.
    pub metadatos: u64,
    /// JPEG images optimised.
    pub jpg: u64,
    /// PNG images optimised.
    pub png: u64,
    /// HEIC images above the size limit.
    pub heic_total: u64,
    /// HEIC images converted to WebP.
    pub convertidos: u64,
    /// Videos found.
    pub videos_total: u64,
    /// Videos replaced by a smaller transcoding.
    pub videos_optimizados: u64,
    /// Bytes saved on videos: the sum, over the videos, of the bytes that
    /// each one shrank by.
    pub videos_ahorro: u128,
}

/// The counters as natural numbers.
pub struct Totales {
    pub metadatos: nat,
    pub jpg: nat,
    pub png: nat,
    pub heic_total: nat,
    pub convertidos: nat,
    pub videos_total: nat,
    pub videos_optimizados: nat,
    pub videos_ahorro: nat,
}

impl View for Contadores {
    type V = Totales;

    open spec fn view(&self) -> Totales {
        Totales {
            metadatos: self.metadatos as nat,
            jpg: self.jpg as nat,
            png: self.png as nat,
            heic_total: self.heic_total as nat,
            convertidos: self.convertidos as nat,
            videos_total: self.videos_total as nat,
            videos_optimizados: self.videos_optimizados as nat,
            videos_ahorro: self.videos_ahorro as nat,
        }
    }
}

/// The counters of a run that has worked on no file.
pub open spec fn totales_en_cero() -> Totales {
    Totales {
        metadatos: 0,
        jpg: 0,
        png: 0,
        heic_total: 0,
        convertidos: 0,
        videos_total: 0,
        videos_optimizados: 0,
        videos_ahorro: 0,
    }
}

/// One if the condition holds, zero if not.
pub open spec fn uno_si(condicion: bool) -> nat {
    if condicion {
        1
    } else {
        0
    }
}

/// The bytes by which the file's video shrank; zero for any other file and
/// for a video that was not replaced.
pub open spec fn ahorro_de(informe: InformeArchivo) -> nat {
    match informe.video {
        Some(Ok(ahorro)) => ahorro as nat,
        _ => 0,
    }
}

/// The counters after the report of one more file.
pub open spec fn sumar(totales: Totales, informe: InformeArchivo) -> Totales {
    Totales {
        metadatos: totales.metadatos + uno_si(informe.metadatos_limpiados),
        jpg: totales.jpg + uno_si(informe.jpg_optimizado),
        png: totales.png + uno_si(informe.png_optimizado),
        heic_total: totales.heic_total + uno_si(informe.heic_encontrado),
        convertidos: totales.convertidos + uno_si(informe.heic_convertido),
        videos_total: totales.videos_total + uno_si(informe.video_encontrado),
        videos_optimizados: totales.videos_optimizados + uno_si(ahorro_de(informe) > 0),
        videos_ahorro: totales.videos_ahorro + ahorro_de(informe),
    }
}

/// The counters of a run that has worked on the files with these reports.
pub open spec fn totales_de(informes: Seq<InformeArchivo>) -> Totales
    decreases informes.len(),
{
    if informes.len() == 0 {
        totales_en_cero()
    } else {
        sumar(totales_de(informes.drop_last()), informes.last())
    }
}

/// The most that one file adds to the bytes saved.
pub open spec fn ahorro_maximo() -> nat {
    u64::MAX as nat
}

/// Whether no count is above `n` and the bytes saved are no more than `n`
/// files can add.
pub open spec fn acotados(totales: Totales, n: nat) -> bool {
    &&& totales.metadatos <= n
    &&& totales.jpg <= n
    &&& totales.png <= n
    &&& totales.heic_total <= n
    &&& totales.convertidos <= n
    &&& totales.videos_total <= n
    &&& totales.videos_optimizados <= n
    &&& totales.videos_ahorro <= n * ahorro_maximo()
}

/// No counter is above the number of files worked on.
pub proof fn lema_totales_acotados(informes: Seq<InformeArchivo>)
    ensures
        acotados(totales_de(informes), informes.len()),
    decreases informes.len(),
{
    if informes.len() > 0 {
        lema_totales_acotados(informes.drop_last());
        let n = informes.drop_last().len();
        assert((n + 1) * ahorro_maximo() == n * ahorro_maximo() + ahorro_maximo())
            by (nonlinear_arith);
    }
}

/// No more images are counted as converted than were found, and no more
/// videos as optimised than were found.
pub proof fn lema_totales_coherentes(informes: Seq<InformeArchivo>)
    requires
        forall|i: int| 0 <= i < informes.len() ==> informe_coherente(#[trigger] informes[i]),
    ensures
        totales_de(informes).convertidos <= totales_de(informes).heic_total,
        totales_de(informes).videos_optimizados <= totales_de(informes).videos_total,
    decreases informes.len(),
{
    if informes.len() > 0 {
        let previos = informes.drop_last();
        assert forall|i: int| 0 <= i < previos.len() implies informe_coherente(
            #[trigger] previos[i],
        ) by {
            assert(previos[i] == informes[i]);
        }
        lema_totales_coherentes(previos);
        assert(informe_coherente(informes[informes.len() - 1]));
    }
}

impl Contadores {
    /// The counters of a run that has worked on no file.
    pub fn nuevos() -> (c: Self)
        ensures
            c@ == totales_en_cero(),
    {
        Contadores {
            metadatos: 0,
            jpg: 0,
            png: 0,
            heic_total: 0,
            convertidos: 0,
            videos_total: 0,
            videos_optimizados: 0,
            videos_ahorro: 0,
        }
    }

    /// Whether the report of one more file can be added without passing the
    /// largest number that a counter holds.
    pub open spec fn con_holgura(&self) -> bool {
        &&& self.metadatos < u64::MAX
        &&& self.jpg < u64::MAX
        &&& self.png < u64::MAX
        &&& self.heic_total < u64::MAX
        &&& self.convertidos < u64::MAX
        &&& self.videos_total < u64::MAX
        &&& self.videos_optimizados < u64::MAX
        &&& self.videos_ahorro + ahorro_maximo() <= u128::MAX
    }

    /// The counters with the report of one more file added.
    pub fn con_informe(self, informe: &InformeArchivo) -> (c: Self)
        requires
            self.con_holgura(),
        ensures
            c@ == sumar(self@, *informe),
    {
        let ahorro: u64 = match informe.video {
            Some(Ok(a)) => a,
            _ => 0,
        };
        Contadores {
            metadatos: self.metadatos + uno(informe.metadatos_limpiados),
            jpg: self.jpg + uno(informe.jpg_optimizado),
            png: self.png + uno(informe.png_optimizado),
            heic_total: self.heic_total + uno(informe.heic_encontrado),
            convertidos: self.convertidos + uno(informe.heic_convertido),
            videos_total: self.videos_total + uno(informe.video_encontrado),
            videos_optimizados: self.videos_optimizados + uno(ahorro > 0),
            videos_ahorro: self.videos_ahorro + ahorro as u128,
        }
    }
}

fn uno(condicion: bool) -> (n: u64)
    ensures
        n == uno_si(condicion),
{
    if condicion {
        1
    } else {
        0
    }
}

} // verus!
