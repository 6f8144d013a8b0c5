//! Transcoding a video and keeping the result only if it is smaller.
//!
//! The operation measures the video, transcodes it into a temporary file
//! beside it, and moves that file over the video when it is strictly smaller.
//! In every other case the temporary file is removed: when the video could
//! not be measured, after a failure, after a timeout, when the transcoder
//! wrote nothing, when the result is not smaller, and when the move did not
//! work.

use crate::clasificador::{es_video, ruta_es_video};
use crate::modelo::{
    accion_referida, disco_tras_orden, iguales_salvo, reaccion, se_mueve, Disco, Mundo,
};
use crate::ordenes::{
    archivos_de, armar_orden_transcodificar, nombrar_temporal_video, orden_transcodificar,
    temporal_video,
};
use crate::proceso::{
    ejecucion_en, error_de, es_exito, existe_en, leer_ejecucion, leer_existencia, leer_renombrado,
    leer_tamano, renombrado_en, tamano_en, vista_de, Accion, AccionVista, Ejecucion,
    ErrorOperacion, Evento, ResultadoProceso,
};
use crate::rutas::{extension, lema_inicio_nombre, lema_punto_extension, minusculas};
use vstd::prelude::*;
use vstd::string::*;

verus! {

/// Where the optimisation of one video stands.
#[derive(Clone, Copy, Debug, PartialEq, Eq)]
pub enum EtapaVideo {
    /// Waiting for the size of the video.
    MidiendoVideo,
    /// Waiting for the transcoder.
    Transcodificando { tamano: u64 },
    /// Waiting to learn whether the transcoder left its file.
    ComprobandoCandidato { tamano: u64 },
    /// Waiting for the size of the transcoded file.
    MidiendoCandidato { tamano: u64 },
    /// Waiting for the transcoded file to be moved over the video.
    Reemplazando { ahorro: u64 },
    /// Waiting for the temporary file to be removed.
    Descartando { resultado: Result<u64, ErrorOperacion> },
    /// Done: the bytes saved, or why the video could not be optimised.
    Terminada { resultado: Result<u64, ErrorOperacion> },
}

/// The stage at which the operation starts. A path that is no video is done
/// at once, with nothing saved.
pub open spec fn video_inicial(ruta: Seq<char>) -> EtapaVideo {
    if ruta_es_video(ruta) {
        EtapaVideo::MidiendoVideo
    } else {
        EtapaVideo::Terminada { resultado: Ok(0) }
    }
}

/// What the operation asks for at each stage; nothing once it is done.
pub open spec fn video_pendiente(ruta: Seq<char>, etapa: EtapaVideo) -> Option<AccionVista> {
    match etapa {
        EtapaVideo::MidiendoVideo => Some(AccionVista::MedirArchivo(ruta)),
        EtapaVideo::Transcodificando { .. } => Some(
            AccionVista::Ejecutar(orden_transcodificar(ruta)),
        ),
        EtapaVideo::ComprobandoCandidato { .. } => Some(
            AccionVista::ComprobarArchivo(temporal_video(ruta)),
        ),
        EtapaVideo::MidiendoCandidato { .. } => Some(
            AccionVista::MedirArchivo(temporal_video(ruta)),
        ),
        EtapaVideo::Reemplazando { .. } => Some(
            AccionVista::Renombrar { origen: temporal_video(ruta), destino: ruta },
        ),
        EtapaVideo::Descartando { .. } => Some(AccionVista::BorrarArchivo(temporal_video(ruta))),
        EtapaVideo::Terminada { .. } => None,
    }
}

/// What the end of the transcoder's run leads to: a timeout counts as
/// nothing saved, any other failure as an error.
pub open spec fn video_tras_transcodificar(tamano: u64, ejecucion: Ejecucion) -> EtapaVideo {
    if es_exito(ejecucion) {
        EtapaVideo::ComprobandoCandidato { tamano }
    } else if ejecucion == Ejecucion::Concluida(ResultadoProceso::TiempoAgotado) {
        EtapaVideo::Descartando { resultado: Ok(0) }
    } else {
        EtapaVideo::Descartando { resultado: Err(error_de(ejecucion)) }
    }
}

/// What the size of the transcoded file leads to: it replaces the video
/// exactly when it is strictly smaller.
pub open spec fn video_tras_medir(tamano: u64, candidato: Option<u64>) -> EtapaVideo {
    match candidato {
        Some(n) => if n < tamano {
            EtapaVideo::Reemplazando { ahorro: (tamano - n) as u64 }
        } else {
            EtapaVideo::Descartando { resultado: Ok(0) }
        },
        None => EtapaVideo::Descartando { resultado: Err(ErrorOperacion::SinTamano) },
    }
}

/// The stage that follows when `evento` answers the pending action.
pub open spec fn video_siguiente(etapa: EtapaVideo, evento: Evento) -> EtapaVideo {
    match etapa {
        EtapaVideo::MidiendoVideo => match tamano_en(evento) {
            Some(tamano) => EtapaVideo::Transcodificando { tamano },
            None => EtapaVideo::Descartando { resultado: Err(ErrorOperacion::SinTamano) },
        },
        EtapaVideo::Transcodificando { tamano } => video_tras_transcodificar(
            tamano,
            ejecucion_en(evento),
        ),
        EtapaVideo::ComprobandoCandidato { tamano } => if existe_en(evento) {
            EtapaVideo::MidiendoCandidato { tamano }
        } else {
            EtapaVideo::Descartando { resultado: Err(ErrorOperacion::SinSalida) }
        },
        EtapaVideo::MidiendoCandidato { tamano } => video_tras_medir(
            tamano,
            tamano_en(evento),
        ),
        EtapaVideo::Reemplazando { ahorro } => if renombrado_en(evento) {
            EtapaVideo::Terminada { resultado: Ok(ahorro) }
        } else {
            EtapaVideo::Descartando { resultado: Err(ErrorOperacion::NoReemplazado) }
        },
        EtapaVideo::Descartando { resultado } => EtapaVideo::Terminada { resultado },
        EtapaVideo::Terminada { resultado } => EtapaVideo::Terminada { resultado },
    }
}

/// The outcome, once the operation is done.
pub open spec fn video_resultado(etapa: EtapaVideo) -> Option<Result<u64, ErrorOperacion>> {
    match etapa {
        EtapaVideo::Terminada { resultado } => Some(resultado),
        _ => None,
    }
}

/// The action that the optimisation of the video at `ruta` asks for at `etapa`.
pub fn accion_video(ruta: &str, etapa: EtapaVideo) -> (a: Option<Accion>)
    ensures
        vista_de(a) == video_pendiente(ruta@, etapa),
{
    match etapa {
        EtapaVideo::MidiendoVideo => Some(Accion::MedirArchivo(String::from_str(ruta))),
        EtapaVideo::Transcodificando { .. } => Some(
            Accion::Ejecutar(armar_orden_transcodificar(ruta)),
        ),
        EtapaVideo::ComprobandoCandidato { .. } => Some(
            Accion::ComprobarArchivo(nombrar_temporal_video(ruta)),
        ),
        EtapaVideo::MidiendoCandidato { .. } => Some(
            Accion::MedirArchivo(nombrar_temporal_video(ruta)),
        ),
        EtapaVideo::Reemplazando { .. } => Some(
            Accion::Renombrar {
                origen: nombrar_temporal_video(ruta),
                destino: String::from_str(ruta),
            },
        ),
        EtapaVideo::Descartando { .. } => Some(
            Accion::BorrarArchivo(nombrar_temporal_video(ruta)),
        ),
        EtapaVideo::Terminada { .. } => None,
    }
}

/// The stage that follows `etapa` when `evento` answers its action.
pub fn avanzar_video(etapa: EtapaVideo, evento: Evento) -> (e: EtapaVideo)
    ensures
        e == video_siguiente(etapa, evento),
{
    match etapa {
        EtapaVideo::MidiendoVideo => match leer_tamano(evento) {
            Some(tamano) => EtapaVideo::Transcodificando { tamano },
            None => EtapaVideo::Descartando { resultado: Err(ErrorOperacion::SinTamano) },
        },
        EtapaVideo::Transcodificando { tamano } => match leer_ejecucion(evento) {
            Ejecucion::Concluida(ResultadoProceso::Exito) => EtapaVideo::ComprobandoCandidato {
                tamano,
            },
            Ejecucion::Concluida(ResultadoProceso::TiempoAgotado) => EtapaVideo::Descartando {
                resultado: Ok(0),
            },
            Ejecucion::Concluida(ResultadoProceso::FalloHerramienta(c)) => {
                EtapaVideo::Descartando { resultado: Err(ErrorOperacion::Herramienta(c)) }
            },
            Ejecucion::NoLanzado => EtapaVideo::Descartando {
                resultado: Err(ErrorOperacion::NoLanzado),
            },
            Ejecucion::EsperaFallida => EtapaVideo::Descartando {
                resultado: Err(ErrorOperacion::EsperaFallida),
            },
        },
        EtapaVideo::ComprobandoCandidato { tamano } => if leer_existencia(evento) {
            EtapaVideo::MidiendoCandidato { tamano }
        } else {
            EtapaVideo::Descartando { resultado: Err(ErrorOperacion::SinSalida) }
        },
        EtapaVideo::MidiendoCandidato { tamano } => match leer_tamano(evento) {
            Some(n) => if n < tamano {
                EtapaVideo::Reemplazando { ahorro: tamano - n }
            } else {
                EtapaVideo::Descartando { resultado: Ok(0) }
            },
            None => EtapaVideo::Descartando { resultado: Err(ErrorOperacion::SinTamano) },
        },
        EtapaVideo::Reemplazando { ahorro } => if leer_renombrado(evento) {
            EtapaVideo::Terminada { resultado: Ok(ahorro) }
        } else {
            EtapaVideo::Descartando { resultado: Err(ErrorOperacion::NoReemplazado) }
        },
        EtapaVideo::Descartando { resultado } => EtapaVideo::Terminada { resultado },
        EtapaVideo::Terminada { resultado } => EtapaVideo::Terminada { resultado },
    }
}

/// The optimisation of one video, step by step.
#[derive(Debug, PartialEq, Eq)]
pub struct OptimizacionVideo {
    pub ruta: String,
    pub etapa: EtapaVideo,
}

impl OptimizacionVideo {
    /// Starts the optimisation of the video at `ruta`.
    pub fn iniciar(ruta: &str) -> (m: Self)
        ensures
            m.ruta@ == ruta@,
            m.etapa == video_inicial(ruta@),
    {
        let etapa = if es_video(ruta) {
            EtapaVideo::MidiendoVideo
        } else {
            EtapaVideo::Terminada { resultado: Ok(0) }
        };
        OptimizacionVideo { ruta: String::from_str(ruta), etapa }
    }

    /// The action to carry out now; none once the operation is done.
    pub fn pendiente(&self) -> (a: Option<Accion>)
        ensures
            vista_de(a) == video_pendiente(self.ruta@, self.etapa),
    {
        accion_video(self.ruta.as_str(), self.etapa)
    }

    /// Takes the answer to the pending action and moves to the next stage.
    pub fn avanzar(&mut self, evento: Evento)
        ensures
            final(self).ruta@ == old(self).ruta@,
            final(self).etapa == video_siguiente(old(self).etapa, evento),
    {
        self.etapa = avanzar_video(self.etapa, evento);
    }

    /// The bytes saved or the reason of the failure, once the operation is
    /// done.
    pub fn resultado(&self) -> (r: Option<Result<u64, ErrorOperacion>>)
        ensures
            r == video_resultado(self.etapa),
    {
        match self.etapa {
            EtapaVideo::Terminada { resultado } => Some(resultado),
            _ => None,
        }
    }
}

/// The stage and the disk reached when the model answers each pending action
/// in turn, for at most `pasos` actions.
pub open spec fn video_correr(
    mundo: Mundo,
    ruta: Seq<char>,
    etapa: EtapaVideo,
    disco: Disco,
    pasos: nat,
) -> (EtapaVideo, Disco)
    decreases pasos,
{
    match video_pendiente(ruta, etapa) {
        Some(accion) if pasos > 0 => {
            let (evento, despues) = reaccion(mundo, disco, 0, accion);
            video_correr(mundo, ruta, video_siguiente(etapa, evento), despues, (pasos - 1) as nat)
        },
        _ => (etapa, disco),
    }
}

/// The temporary file of a video is another file than the video.
pub proof fn lema_temporal_distinto(ruta: Seq<char>)
    requires
        ruta_es_video(ruta),
    ensures
        temporal_video(ruta) != ruta,
        temporal_video(ruta).len() == ruta.len() + 4,
{
    reveal_strlit("mp4");
    reveal_strlit("mov");
    reveal_strlit("opt.mp4");
    reveal_strlit("opt.mov");
    lema_punto_extension(ruta);
    lema_inicio_nombre(ruta);
    let ext = extension(ruta)->0;
    assert(minusculas(ext).len() == ext.len());
}

/// The size of the file that the transcoder produced for the video, when it
/// ran to success and the sizes of the video and of that file could be
/// read.
pub open spec fn candidato(mundo: Mundo, ruta: Seq<char>, disco: Disco) -> Option<u64> {
    let orden = orden_transcodificar(ruta);
    let transcodificado = disco_tras_orden(mundo, disco, orden);
    if disco.dom().contains(ruta) && (mundo.mide)(ruta, disco) && es_exito(
        (mundo.corre)(orden, disco),
    ) && (mundo.mide)(temporal_video(ruta), transcodificado) {
        (mundo.escribe)(orden, disco)
    } else {
        None
    }
}

/// Whether the transcoded file can be moved over the video.
pub open spec fn reemplazable(mundo: Mundo, ruta: Seq<char>, disco: Disco) -> bool {
    se_mueve(
        mundo,
        disco_tras_orden(mundo, disco, orden_transcodificar(ruta)),
        temporal_video(ruta),
        ruta,
    )
}

/// What the optimisation of a video that exists comes to, whatever the
/// transcoder and the file system do.
///
/// The operation ends within six actions. The temporary file is not there
/// afterwards, the video still is, and no other file has changed. A candidate
/// strictly smaller than the video, once moved, is the new video, and the
/// saving reported is the size before less the size after. A candidate of the
/// same size or larger leaves the video as it was, with a saving of zero.
/// Whenever a saving is reported, the video has shrunk by exactly that much,
/// and after an error it is unchanged.
pub proof fn lema_video(mundo: Mundo, ruta: Seq<char>, disco: Disco)
    requires
        ruta_es_video(ruta),
        disco.dom().contains(ruta),
    ensures
        ({
            let temporal = temporal_video(ruta);
            let tamano = disco[ruta];
            let (fin, despues) = video_correr(mundo, ruta, video_inicial(ruta), disco, 6);
            &&& video_pendiente(ruta, fin) is None
            &&& !despues.dom().contains(temporal)
            &&& despues.dom().contains(ruta)
            &&& iguales_salvo(despues, disco, set![ruta, temporal])
            &&& match candidato(mundo, ruta, disco) {
                Some(n) => if n < tamano {
                    reemplazable(mundo, ruta, disco) ==> video_resultado(fin) == Some(
                        Ok::<u64, ErrorOperacion>((tamano - n) as u64),
                    ) && despues[ruta] == n
                } else {
                    video_resultado(fin) == Some(Ok::<u64, ErrorOperacion>(0)) && despues[ruta]
                        == tamano
                },
                None => despues[ruta] == tamano,
            }
            &&& match video_resultado(fin) {
                Some(Ok(ahorro)) => despues[ruta] + ahorro == tamano,
                _ => despues[ruta] == tamano,
            }
        }),
{
    lema_temporal_distinto(ruta);
    reveal_with_fuel(video_correr, 7);
}

/// Whatever the optimisation of a video asks for refers to the video and to
/// its temporary file only.
pub proof fn lema_video_referido(ruta: Seq<char>, etapa: EtapaVideo)
    ensures
        video_pendiente(ruta, etapa) matches Some(accion) ==> accion_referida(
            accion,
            set![ruta, temporal_video(ruta)],
        ) && accion_referida(accion, archivos_de(ruta)),
{
}

/// The most actions that the optimisation can still ask for at this stage.
pub open spec fn video_restantes(etapa: EtapaVideo) -> nat {
    match etapa {
        EtapaVideo::MidiendoVideo => 6,
        EtapaVideo::Transcodificando { .. } => 5,
        EtapaVideo::ComprobandoCandidato { .. } => 4,
        EtapaVideo::MidiendoCandidato { .. } => 3,
        EtapaVideo::Reemplazando { .. } => 2,
        EtapaVideo::Descartando { .. } => 1,
        EtapaVideo::Terminada { .. } => 0,
    }
}

/// Every step brings the optimisation nearer to its end, so no stage is
/// reached twice: the transcoder runs at most once for a video.
pub proof fn lema_video_avanza(etapa: EtapaVideo, evento: Evento)
    ensures
        video_restantes(etapa) == 0 <==> etapa is Terminada,
        !(etapa is Terminada) ==> video_restantes(video_siguiente(etapa, evento))
            < video_restantes(etapa),
{
}

} // verus!
