//! The loop of a run: one file at a time, with cancellation between files.
//!
//! The files to work on are fixed when the loop is made. Before each file
//! the loop asks whether cancellation was requested. If it was, the loop
//! stops for good: no further action is asked for, and the counters hold
//! what the files worked on so far added. Otherwise the file is worked on
//! until nothing is left to do with it, its report is added to the counters,
//! and the loop moves to the next file. A file is worked on once.

use crate::clasificador::Archivo;
use crate::contadores::{
    ahorro_maximo, lema_totales_acotados, lema_totales_coherentes, sumar, totales_de,
    totales_en_cero, Contadores, Totales,
};
use crate::modelo::{
    accion_referida, cancelacion_pedida, coinciden_en, lema_reaccion_local, reaccion, Disco,
    Mundo,
};
use crate::ordenes::archivos_de;
use crate::proceso::{cancelacion_en, leer_cancelacion, vista_de, Accion, AccionVista, Evento};
use crate::tarea::{
    accion_tarea, avanzar_tarea, informe_coherente, iniciar_tarea, lema_tarea_avanza,
    lema_tarea_coherente, lema_tarea_referida, tarea_coherente, tarea_inicial, tarea_pendiente,
    tarea_restantes, tarea_siguiente, tarea_terminada, EstadoTarea, EtapaTarea, InformeArchivo,
};
use vstd::prelude::*;

verus! {

/// Whether the loop goes on, and if not, how it ended.
#[derive(Clone, Copy, Debug, PartialEq, Eq, Structural)]
pub enum Fase {
    /// There are files left and cancellation has not been seen.
    EnCurso,
    /// Cancellation was seen before a file; the files from that one on were
    /// not worked on.
    Cancelada,
    /// Every file was worked on.
    Completa,
}

/// The loop as plain values.
pub struct EstadoBucle {
    /// The files to work on, in order.
    pub archivos: Seq<Seq<char>>,
    /// How many files have been worked on.
    pub indice: nat,
    /// The work on the file in turn, once cancellation was ruled out for it.
    pub tarea: Option<EstadoTarea>,
    /// The counters.
    pub totales: Totales,
    pub fase: Fase,
    /// The reports of the files worked on, in order.
    pub historial: Seq<InformeArchivo>,
}

/// The loop before anything has happened. With no file it is complete at
/// once.
pub open spec fn bucle_inicial(archivos: Seq<Seq<char>>) -> EstadoBucle {
    EstadoBucle {
        archivos,
        indice: 0,
        tarea: None,
        totales: totales_en_cero(),
        fase: if archivos.len() == 0 {
            Fase::Completa
        } else {
            Fase::EnCurso
        },
        historial: Seq::empty(),
    }
}

/// What the loop asks for: nothing once it has ended, the cancellation flag
/// before each file, and otherwise what the work on the file in turn asks
/// for.
pub open spec fn bucle_pendiente(estado: EstadoBucle) -> Option<AccionVista> {
    if estado.fase != Fase::EnCurso {
        None
    } else {
        match estado.tarea {
            Some(tarea) => tarea_pendiente(estado.archivos[estado.indice as int], tarea),
            None => Some(AccionVista::ConsultarCancelacion),
        }
    }
}

/// The loop once the work on the file in turn has reached `tarea`: while the
/// work is not done the loop stays with the file; when it is done the report
/// is added and the loop moves on, and is complete after the last file.
pub open spec fn asentar(estado: EstadoBucle, tarea: EstadoTarea) -> EstadoBucle {
    if tarea_terminada(tarea) {
        EstadoBucle {
            indice: estado.indice + 1,
            tarea: None,
            totales: sumar(estado.totales, tarea.informe),
            fase: if estado.indice + 1 == estado.archivos.len() {
                Fase::Completa
            } else {
                Fase::EnCurso
            },
            historial: estado.historial.push(tarea.informe),
            ..estado
        }
    } else {
        EstadoBucle { tarea: Some(tarea), ..estado }
    }
}

/// The loop after `evento` has answered what it asked for. A loop that has
/// ended stays as it is.
pub open spec fn bucle_siguiente(estado: EstadoBucle, evento: Evento) -> EstadoBucle {
    if estado.fase != Fase::EnCurso {
        estado
    } else {
        match estado.tarea {
            Some(tarea) => asentar(estado, tarea_siguiente(tarea, evento)),
            None => if cancelacion_en(evento) {
                EstadoBucle { fase: Fase::Cancelada, ..estado }
            } else {
                asentar(estado, tarea_inicial(estado.archivos[estado.indice as int]))
            },
        }
    }
}

/// What holds of the loop at every moment: there is one report for each file
/// worked on, the counters are the sum of those reports, a loop that goes on
/// or was cancelled has files left, a complete one has none, and work is
/// under way only while the loop goes on and only on the file in turn.
pub open spec fn bucle_valido(estado: EstadoBucle) -> bool {
    &&& estado.indice <= estado.archivos.len()
    &&& estado.historial.len() == estado.indice
    &&& estado.totales == totales_de(estado.historial)
    &&& forall|i: int|
        0 <= i < estado.historial.len() ==> informe_coherente(#[trigger] estado.historial[i])
    &&& match estado.fase {
        Fase::Completa => estado.indice == estado.archivos.len() && estado.tarea is None,
        Fase::Cancelada => estado.indice < estado.archivos.len() && estado.tarea is None,
        Fase::EnCurso => estado.indice < estado.archivos.len(),
    }
    &&& estado.tarea matches Some(tarea) ==> tarea_coherente(
        estado.archivos[estado.indice as int],
        tarea,
    ) && !tarea_terminada(tarea)
}

/// The loop starts valid and every step keeps it valid. A step never changes
/// the files, completes at most one file, and leaves the reports of the files
/// already worked on as they were.
pub proof fn lema_bucle_valido(estado: EstadoBucle, evento: Evento)
    requires
        bucle_valido(estado),
    ensures
        bucle_valido(bucle_inicial(estado.archivos)),
        bucle_valido(bucle_siguiente(estado, evento)),
        bucle_siguiente(estado, evento).archivos == estado.archivos,
        bucle_siguiente(estado, evento).indice == estado.indice || bucle_siguiente(
            estado,
            evento,
        ).indice == estado.indice + 1,
        bucle_siguiente(estado, evento).historial.take(estado.indice as int) == estado.historial,
{
    let despues = bucle_siguiente(estado, evento);
    assert(despues.historial.take(estado.indice as int) =~= estado.historial);
    if estado.fase == Fase::EnCurso {
        let ruta = estado.archivos[estado.indice as int];
        match estado.tarea {
            Some(tarea) => {
                lema_tarea_coherente(ruta, tarea, evento);
            },
            None => {
                lema_tarea_coherente(ruta, tarea_inicial(ruta), evento);
            },
        }
        if despues.indice == estado.indice + 1 {
            assert(despues.historial.drop_last() =~= estado.historial);
            assert forall|i: int| 0 <= i < despues.historial.len() implies informe_coherente(
                #[trigger] despues.historial[i],
            ) by {
                if i < estado.historial.len() {
                    assert(despues.historial[i] == estado.historial[i]);
                }
            }
        }
    }
}

/// Cancellation seen before a file stops the loop there. The loop is
/// cancelled, the number of files worked on and their reports are as they
/// were, the counters are the sum of the reports of the files worked on and
/// of no other, nothing more is asked for, and no later event changes
/// anything.
pub proof fn lema_cancelacion(estado: EstadoBucle, evento: Evento, posterior: Evento)
    requires
        bucle_valido(estado),
        estado.fase == Fase::EnCurso,
        estado.tarea is None,
        cancelacion_en(evento),
    ensures
        ({
            let fin = bucle_siguiente(estado, evento);
            &&& fin.fase == Fase::Cancelada
            &&& fin.indice == estado.indice
            &&& fin.historial == estado.historial
            &&& fin.totales == totales_de(estado.historial)
            &&& bucle_pendiente(fin) is None
            &&& bucle_siguiente(fin, posterior) == fin
        }),
{
}

/// While a file is in turn, whatever the loop asks for refers to that file's
/// own files only: the files that follow are not touched before their turn.
pub proof fn lema_bucle_referido(estado: EstadoBucle)
    requires
        bucle_valido(estado),
    ensures
        bucle_pendiente(estado) matches Some(accion) ==> accion_referida(
            accion,
            archivos_de(estado.archivos[estado.indice as int]),
        ),
{
    if estado.fase == Fase::EnCurso {
        if let Some(tarea) = estado.tarea {
            lema_tarea_referida(estado.archivos[estado.indice as int], tarea);
        }
    }
}

/// The loop and the disk reached when the model answers each thing asked for
/// in turn, for at most `pasos` of them.
pub open spec fn bucle_correr(mundo: Mundo, estado: EstadoBucle, disco: Disco, pasos: nat) -> (
    EstadoBucle,
    Disco,
)
    decreases pasos,
{
    match bucle_pendiente(estado) {
        Some(accion) if pasos > 0 => {
            let (evento, despues) = reaccion(mundo, disco, estado.indice, accion);
            bucle_correr(mundo, bucle_siguiente(estado, evento), despues, (pasos - 1) as nat)
        },
        _ => (estado, disco),
    }
}

/// When cancellation has been requested by the time the loop reaches a file,
/// the run ends there however long it is let go on: the disk is as it was
/// when the file was reached, and the counters are those of the files worked
/// on before.
pub proof fn lema_cancelacion_en_modelo(
    mundo: Mundo,
    estado: EstadoBucle,
    disco: Disco,
    pasos: nat,
)
    requires
        bucle_valido(estado),
        estado.fase == Fase::EnCurso,
        estado.tarea is None,
        cancelacion_pedida(mundo, estado.indice),
        pasos > 0,
    ensures
        ({
            let (fin, despues) = bucle_correr(mundo, estado, disco, pasos);
            &&& despues == disco
            &&& fin.fase == Fase::Cancelada
            &&& fin.indice == estado.indice
            &&& fin.totales == totales_de(estado.historial)
        }),
{
    reveal_with_fuel(bucle_correr, 2);
}

/// The most things that the loop can still ask for: for each file left, the
/// cancellation flag and at most eight actions.
pub open spec fn bucle_restantes(estado: EstadoBucle) -> nat {
    if estado.fase != Fase::EnCurso {
        0
    } else {
        let faltan = estado.archivos.len() - estado.indice;
        match estado.tarea {
            Some(tarea) => ((faltan - 1) * 9 + tarea_restantes(tarea)) as nat,
            None => (faltan * 9) as nat,
        }
    }
}

/// The first file for which the loop has yet to ask about cancellation.
pub open spec fn proxima_consulta(estado: EstadoBucle) -> nat {
    if estado.tarea is Some {
        estado.indice + 1
    } else {
        estado.indice
    }
}

/// Whether `ruta` is none of the own files of the files from position
/// `desde` up to, but not including, position `hasta`.
pub open spec fn ajena(archivos: Seq<Seq<char>>, desde: nat, hasta: nat, ruta: Seq<char>) -> bool {
    forall|i: int|
        desde <= i < hasta && i < archivos.len() ==> !(#[trigger] archivos_de(
            archivos[i],
        )).contains(ruta)
}

/// Whether the two disks agree on every path that is none of the own files
/// of the files from position `desde` up to position `hasta`.
pub open spec fn intactos(
    despues: Disco,
    antes: Disco,
    archivos: Seq<Seq<char>>,
    desde: nat,
    hasta: nat,
) -> bool {
    forall|ruta: Seq<char>|
        ajena(archivos, desde, hasta, ruta) ==> #[trigger] coinciden_en(despues, antes, ruta)
}

/// Every step brings the loop nearer to its end.
pub proof fn lema_bucle_avanza(estado: EstadoBucle, evento: Evento)
    requires
        bucle_valido(estado),
        estado.fase == Fase::EnCurso,
    ensures
        bucle_pendiente(estado) is Some,
        bucle_restantes(bucle_siguiente(estado, evento)) < bucle_restantes(estado),
{
    let ruta = estado.archivos[estado.indice as int];
    match estado.tarea {
        Some(tarea) => {
            lema_tarea_coherente(ruta, tarea, evento);
            lema_tarea_avanza(ruta, tarea, evento);
            lema_tarea_avanza(ruta, tarea_siguiente(tarea, evento), evento);
        },
        None => {
            lema_tarea_coherente(ruta, tarea_inicial(ruta), evento);
            lema_tarea_avanza(ruta, tarea_inicial(ruta), evento);
        },
    }
}

/// What a run comes to, whatever the tools and the file system do and
/// whenever cancellation is requested.
///
/// Let go on for as many steps as it may need, the loop ends: it is complete
/// or it was cancelled. It worked, in order and once each, on the files up to
/// the first one before which cancellation was requested, and on all of them
/// when it never was; a file on which work was under way is among them. The
/// reports of the files worked on before are unchanged, and the counters are
/// the sum of the reports of the files worked on. On the disk, nothing has
/// changed but own files of the files worked on.
pub proof fn lema_corrida(mundo: Mundo, estado: EstadoBucle, disco: Disco, pasos: nat)
    requires
        bucle_valido(estado),
        pasos >= bucle_restantes(estado),
    ensures
        ({
            let (fin, despues) = bucle_correr(mundo, estado, disco, pasos);
            &&& bucle_valido(fin)
            &&& fin.archivos == estado.archivos
            &&& fin.fase != Fase::EnCurso
            &&& bucle_pendiente(fin) is None
            &&& estado.indice <= fin.indice
            &&& fin.historial.take(estado.indice as int) == estado.historial
            &&& fin.totales == totales_de(fin.historial)
            &&& forall|i: nat|
                proxima_consulta(estado) <= i < fin.indice ==> !#[trigger] cancelacion_pedida(
                    mundo,
                    i,
                )
            &&& estado.fase == Fase::EnCurso && fin.fase == Fase::Cancelada ==> cancelacion_pedida(
                mundo,
                fin.indice,
            )
            &&& estado.fase == Fase::EnCurso && fin.fase == Fase::Completa ==> fin.indice
                == estado.archivos.len()
            &&& estado.tarea is Some ==> fin.indice > estado.indice
            &&& intactos(despues, disco, estado.archivos, estado.indice, fin.indice)
        }),
    decreases pasos,
{
    if estado.fase == Fase::EnCurso {
        let accion = bucle_pendiente(estado)->0;
        let (evento, disco2) = reaccion(mundo, disco, estado.indice, accion);
        let estado2 = bucle_siguiente(estado, evento);
        lema_bucle_avanza(estado, evento);
        lema_bucle_valido(estado, evento);
        lema_corrida(mundo, estado2, disco2, (pasos - 1) as nat);
        let (fin, despues) = bucle_correr(mundo, estado2, disco2, (pasos - 1) as nat);
        assert(bucle_correr(mundo, estado, disco, pasos) == (fin, despues));
        let propios = archivos_de(estado.archivos[estado.indice as int]);
        lema_bucle_referido(estado);
        lema_reaccion_local(mundo, disco, estado.indice, accion, propios);
        assert forall|ruta: Seq<char>|
            ajena(estado.archivos, estado.indice, fin.indice, ruta) implies #[trigger] coinciden_en(
            despues,
            disco,
            ruta,
        ) by {
            assert(ajena(estado.archivos, estado2.indice, fin.indice, ruta));
            assert(coinciden_en(despues, disco2, ruta));
            if estado.tarea is Some {
                assert(!propios.contains(ruta));
            }
            assert(coinciden_en(disco2, disco, ruta));
        }
        assert(fin.historial.take(estado.indice as int) =~= estado.historial) by {
            assert(fin.historial.take(estado2.indice as int) == estado2.historial);
            assert(estado2.historial.take(estado.indice as int) == estado.historial);
        }
        if estado.tarea is None {
            assert(accion == AccionVista::ConsultarCancelacion);
            assert(evento == Evento::Cancelacion(cancelacion_pedida(mundo, estado.indice)));
        }
    } else {
        assert(estado.historial.take(estado.indice as int) =~= estado.historial);
    }
}

/// A run from the start, over a model of the outside. It ends within nine
/// steps for each file. It is cancelled before the first file before which
/// cancellation was requested, having worked on every file that comes
/// earlier and on none that comes later; and when cancellation is never
/// requested it works on every file, once. What is on the disk and is no own
/// file of a file worked on is as it was: the files from the point of
/// cancellation on are untouched.
pub proof fn lema_corrida_entera(mundo: Mundo, archivos: Seq<Seq<char>>, disco: Disco)
    ensures
        ({
            let (fin, despues) = bucle_correr(
                mundo,
                bucle_inicial(archivos),
                disco,
                archivos.len() * 9,
            );
            &&& bucle_valido(fin)
            &&& fin.archivos == archivos
            &&& fin.historial.len() == fin.indice
            &&& fin.totales == totales_de(fin.historial)
            &&& forall|i: nat| i < fin.indice ==> !#[trigger] cancelacion_pedida(mundo, i)
            &&& intactos(despues, disco, archivos, 0, fin.indice)
            &&& match fin.fase {
                Fase::Completa => fin.indice == archivos.len(),
                Fase::Cancelada => fin.indice < archivos.len() && cancelacion_pedida(
                    mundo,
                    fin.indice,
                ),
                Fase::EnCurso => false,
            }
        }),
{
    let inicial = bucle_inicial(archivos);
    assert(bucle_valido(inicial));
    lema_corrida(mundo, inicial, disco, archivos.len() * 9);
    if archivos.len() == 0 {
        reveal_with_fuel(bucle_correr, 1);
    }
}

/// The loop of a run.
pub struct Bucle {
    archivos: Vec<Archivo>,
    indice: usize,
    tarea: Option<EstadoTarea>,
    contadores: Contadores,
    fase: Fase,
    ultimo: Option<InformeArchivo>,
    historial: Ghost<Seq<InformeArchivo>>,
}

impl View for Bucle {
    type V = EstadoBucle;

    closed spec fn view(&self) -> EstadoBucle {
        EstadoBucle {
            archivos: self.archivos.deep_view(),
            indice: self.indice as nat,
            tarea: self.tarea,
            totales: self.contadores@,
            fase: self.fase,
            historial: self.historial@,
        }
    }
}

/// The report added last, if any was.
pub open spec fn ultimo_de(historial: Seq<InformeArchivo>) -> Option<InformeArchivo> {
    if historial.len() > 0 {
        Some(historial.last())
    } else {
        None
    }
}

impl Bucle {
    #[verifier::type_invariant]
    spec fn invariante(&self) -> bool {
        bucle_valido(self@) && self.ultimo == ultimo_de(self.historial@)
    }

    /// A loop over `archivos`, before anything has happened.
    pub fn nuevo(archivos: Vec<Archivo>) -> (b: Self)
        ensures
            b@ == bucle_inicial(archivos.deep_view()),
            bucle_valido(b@),
    {
        let fase = if archivos.len() == 0 {
            Fase::Completa
        } else {
            Fase::EnCurso
        };
        Bucle {
            archivos,
            indice: 0,
            tarea: None,
            contadores: Contadores::nuevos(),
            fase,
            ultimo: None,
            historial: Ghost(Seq::empty()),
        }
    }

    /// What to do now; nothing once the loop has ended.
    pub fn pendiente(&self) -> (a: Option<Accion>)
        ensures
            vista_de(a) == bucle_pendiente(self@),
            bucle_valido(self@),
    {
        proof {
            use_type_invariant(self);
        }
        match self.fase {
            Fase::EnCurso => match &self.tarea {
                Some(tarea) => accion_tarea(self.archivos[self.indice].ruta(), tarea),
                None => Some(Accion::ConsultarCancelacion),
            },
            _ => None,
        }
    }

    /// Takes the answer to what was asked for and moves on.
    pub fn avanzar(self, evento: Evento) -> (b: Self)
        ensures
            b@ == bucle_siguiente(self@, evento),
            bucle_valido(b@),
    {
        proof {
            use_type_invariant(&self);
            lema_bucle_valido(self@, evento);
        }
        match self.fase {
            Fase::EnCurso => {},
            _ => {
                return self;
            },
        }
        let tarea = match self.tarea {
            Some(tarea) => avanzar_tarea(tarea, evento),
            None => {
                if leer_cancelacion(evento) {
                    return Bucle { fase: Fase::Cancelada, ..self };
                }
                iniciar_tarea(&self.archivos[self.indice])
            },
        };
        match tarea.etapa {
            EtapaTarea::Terminada => {
                assert(self.archivos.deep_view().len() == self.archivos.len());
                proof {
                    lema_totales_acotados(self.historial@);
                    assert(self.indice * ahorro_maximo() + ahorro_maximo() <= u64::MAX * u64::MAX)
                        by (nonlinear_arith)
                        requires
                            self.indice + 1 <= u64::MAX,
                            ahorro_maximo() == u64::MAX,
                    ;
                    assert(0xffff_ffff_ffff_ffff * 0xffff_ffff_ffff_ffff <= u128::MAX);
                }
                let indice: usize = self.indice + 1;
                let fase = if indice == self.archivos.len() {
                    Fase::Completa
                } else {
                    Fase::EnCurso
                };
                let ghost historial = self.historial@.push(tarea.informe);
                Bucle {
                    indice,
                    tarea: None,
                    contadores: self.contadores.con_informe(&tarea.informe),
                    fase,
                    ultimo: Some(tarea.informe),
                    historial: Ghost(historial),
                    ..self
                }
            },
            _ => Bucle { tarea: Some(tarea), ..self },
        }
    }

    /// Whether the loop goes on, was cancelled or is complete.
    pub fn fase(&self) -> (f: Fase)
        ensures
            f == self@.fase,
    {
        self.fase
    }

    /// How many files have been worked on.
    pub fn indice(&self) -> (i: usize)
        ensures
            i == self@.indice,
            i <= self@.archivos.len(),
    {
        proof {
            use_type_invariant(self);
        }
        self.indice
    }

    /// How many files the loop is over.
    pub fn total(&self) -> (n: usize)
        ensures
            n == self@.archivos.len(),
    {
        self.archivos.len()
    }

    /// The counters: the sum of the reports of the files worked on.
    pub fn contadores(&self) -> (c: Contadores)
        ensures
            c@ == self@.totales,
            c@ == totales_de(self@.historial),
            c.convertidos <= c.heic_total,
            c.videos_optimizados <= c.videos_total,
    {
        proof {
            use_type_invariant(self);
            lema_totales_coherentes(self.historial@);
        }
        self.contadores
    }

    /// The file in turn, while the loop goes on.
    pub fn archivo_en_turno(&self) -> (r: Option<&str>)
        ensures
            match r {
                Some(ruta) => self@.fase == Fase::EnCurso && ruta@
                    == self@.archivos[self@.indice as int],
                None => self@.fase != Fase::EnCurso,
            },
    {
        proof {
            use_type_invariant(self);
        }
        match self.fase {
            Fase::EnCurso => Some(self.archivos[self.indice].ruta()),
            _ => None,
        }
    }

    /// The report of the file worked on last, if any file was.
    pub fn ultimo_informe(&self) -> (r: Option<InformeArchivo>)
        ensures
            r == ultimo_de(self@.historial),
    {
        proof {
            use_type_invariant(self);
        }
        self.ultimo
    }
}

} // verus!
