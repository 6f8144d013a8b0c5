//! Everything that a run does with one file.
//!
//! An image has its metadata stripped first. A JPEG or a PNG is then
//! optimised in place. A HEIC image is measured, and converted to WebP only
//! when it is larger than `LIMITE_WEBP`. A video is transcoded. Each tool is
//! run at most once per file, and a step that fails is noted in the file's
//! report and does not stop the steps that follow.

use crate::clasificador::{
    categoria_de, lema_categoria_y_predicados, ruta_es_imagen_heic, Archivo, Categoria,
};
use crate::heic::{
    accion_heic, avanzar_heic, heic_pendiente, heic_restantes, heic_siguiente, lema_heic_avanza,
    lema_heic_referido, EtapaHeic,
};
use crate::modelo::{
    accion_referida, coinciden_en, disco_tras_orden, iguales_salvo, lema_reaccion_local, reaccion,
    Disco, Mundo,
};
use crate::ordenes::{
    archivos_de, armar_orden_jpg, armar_orden_metadatos, armar_orden_png, orden_jpg,
    orden_metadatos, orden_png,
};
use crate::proceso::{
    desenlace, desenlace_de, ejecucion_en, es_exito, leer_ejecucion, leer_tamano, tamano_en,
    vista_de, Accion, AccionVista, ErrorOperacion, Evento,
};
use crate::video::{
    accion_video, avanzar_video, lema_video_avanza, lema_video_referido, video_pendiente,
    video_restantes, video_siguiente, EtapaVideo,
};
use vstd::prelude::*;
use vstd::string::*;

verus! {

/// A HEIC image is converted only when it is larger than this many bytes.
pub const LIMITE_WEBP: u64 = 3 * 1024 * 1024;

/// What was done with one file.
#[derive(Clone, Copy, Debug, PartialEq, Eq)]
pub struct InformeArchivo {
    /// The metadata was stripped.
    pub metadatos_limpiados: bool,
    /// The JPEG was optimised.
    pub jpg_optimizado: bool,
    /// The PNG was optimised.
    pub png_optimizado: bool,
    /// The file is a HEIC image above the size limit.
    pub heic_encontrado: bool,
    /// The HEIC image was converted to WebP.
    pub heic_convertido: bool,
    /// The file is a video.
    pub video_encontrado: bool,
    /// How the optimisation of the video ended: the bytes saved, or why it
    /// failed. None for a file that is no video.
    pub video: Option<Result<u64, ErrorOperacion>>,
}

/// The report of a file with which nothing was done.
pub open spec fn informe_en_blanco() -> InformeArchivo {
    InformeArchivo {
        metadatos_limpiados: false,
        jpg_optimizado: false,
        png_optimizado: false,
        heic_encontrado: false,
        heic_convertido: false,
        video_encontrado: false,
        video: None,
    }
}

/// Where the work on one file stands.
#[derive(Clone, Copy, Debug, PartialEq, Eq)]
pub enum EtapaTarea {
    /// Waiting for the metadata stripper.
    Metadatos,
    /// Waiting for the JPEG optimiser.
    Jpg,
    /// Waiting for the PNG optimiser.
    Png,
    /// Waiting for the size of the HEIC image.
    MidiendoHeic,
    /// The HEIC image is being converted.
    Heic(EtapaHeic),
    /// The video is being optimised.
    Video(EtapaVideo),
    /// Nothing is left to do.
    Terminada,
}

/// The work on one file: its category, the stage reached, and what has been
/// done so far.
#[derive(Clone, Copy, Debug, PartialEq, Eq)]
pub struct EstadoTarea {
    pub categoria: Categoria,
    pub etapa: EtapaTarea,
    pub informe: InformeArchivo,
}

/// The state in which the work on the file at `ruta` starts.
pub open spec fn tarea_inicial(ruta: Seq<char>) -> EstadoTarea {
    let categoria = categoria_de(ruta);
    match categoria {
        Categoria::Otro => EstadoTarea {
            categoria,
            etapa: EtapaTarea::Terminada,
            informe: informe_en_blanco(),
        },
        Categoria::Video => EstadoTarea {
            categoria,
            etapa: EtapaTarea::Video(EtapaVideo::MidiendoVideo),
            informe: InformeArchivo { video_encontrado: true, ..informe_en_blanco() },
        },
        _ => EstadoTarea { categoria, etapa: EtapaTarea::Metadatos, informe: informe_en_blanco() },
    }
}

/// What the work on the file asks for in this state; nothing once it is
/// done.
pub open spec fn tarea_pendiente(ruta: Seq<char>, estado: EstadoTarea) -> Option<AccionVista> {
    match estado.etapa {
        EtapaTarea::Metadatos => Some(AccionVista::Ejecutar(orden_metadatos(ruta))),
        EtapaTarea::Jpg => Some(AccionVista::Ejecutar(orden_jpg(ruta))),
        EtapaTarea::Png => Some(AccionVista::Ejecutar(orden_png(ruta))),
        EtapaTarea::MidiendoHeic => Some(AccionVista::MedirArchivo(ruta)),
        EtapaTarea::Heic(etapa) => heic_pendiente(ruta, etapa),
        EtapaTarea::Video(etapa) => video_pendiente(ruta, etapa),
        EtapaTarea::Terminada => None,
    }
}

/// The stage that follows the stripping of the metadata.
pub open spec fn etapa_tras_metadatos(categoria: Categoria) -> EtapaTarea {
    match categoria {
        Categoria::ImagenJpg => EtapaTarea::Jpg,
        Categoria::ImagenPng => EtapaTarea::Png,
        Categoria::ImagenHeic => EtapaTarea::MidiendoHeic,
        _ => EtapaTarea::Terminada,
    }
}

/// Whether a HEIC image of this size is to be converted.
pub open spec fn supera_limite(tamano: Option<u64>) -> bool {
    tamano matches Some(n) && n > LIMITE_WEBP
}

/// Whether the event reports that an in-place operation was done: its tool
/// ran to success within its limit.
pub open spec fn hecho_en(evento: Evento) -> bool {
    desenlace_de(ejecucion_en(evento)) is Ok
}

/// The state that follows when `evento` answers the pending action.
pub open spec fn tarea_siguiente(estado: EstadoTarea, evento: Evento) -> EstadoTarea {
    let informe = estado.informe;
    match estado.etapa {
        EtapaTarea::Metadatos => EstadoTarea {
            etapa: etapa_tras_metadatos(estado.categoria),
            informe: InformeArchivo {
                metadatos_limpiados: hecho_en(evento),
                ..informe
            },
            ..estado
        },
        EtapaTarea::Jpg => EstadoTarea {
            etapa: EtapaTarea::Terminada,
            informe: InformeArchivo { jpg_optimizado: hecho_en(evento), ..informe },
            ..estado
        },
        EtapaTarea::Png => EstadoTarea {
            etapa: EtapaTarea::Terminada,
            informe: InformeArchivo { png_optimizado: hecho_en(evento), ..informe },
            ..estado
        },
        EtapaTarea::MidiendoHeic => if supera_limite(tamano_en(evento)) {
            EstadoTarea {
                etapa: EtapaTarea::Heic(EtapaHeic::Decodificando),
                informe: InformeArchivo { heic_encontrado: true, ..informe },
                ..estado
            }
        } else {
            EstadoTarea { etapa: EtapaTarea::Terminada, ..estado }
        },
        EtapaTarea::Heic(etapa) => match heic_siguiente(etapa, evento) {
            EtapaHeic::Terminada { resultado } => EstadoTarea {
                etapa: EtapaTarea::Terminada,
                informe: InformeArchivo { heic_convertido: resultado is Ok, ..informe },
                ..estado
            },
            otra => EstadoTarea { etapa: EtapaTarea::Heic(otra), ..estado },
        },
        EtapaTarea::Video(etapa) => match video_siguiente(etapa, evento) {
            EtapaVideo::Terminada { resultado } => EstadoTarea {
                etapa: EtapaTarea::Terminada,
                informe: InformeArchivo { video: Some(resultado), ..informe },
                ..estado
            },
            otra => EstadoTarea { etapa: EtapaTarea::Video(otra), ..estado },
        },
        EtapaTarea::Terminada => estado,
    }
}

/// Whether the work is done.
pub open spec fn tarea_terminada(estado: EstadoTarea) -> bool {
    estado.etapa == EtapaTarea::Terminada
}

/// Whether the report is one that the work on a file can give: a conversion
/// is reported only for a HEIC image that was found, and the outcome of an
/// optimisation only for a video that was found.
pub open spec fn informe_coherente(informe: InformeArchivo) -> bool {
    &&& informe.heic_convertido ==> informe.heic_encontrado
    &&& informe.video is Some ==> informe.video_encontrado
}

/// Whether the state is one that the work on the file at `ruta` can be in:
/// the category is that of the path, the stage belongs to the category, an
/// operation under way is not one that has ended, and the report is coherent.
pub open spec fn tarea_coherente(ruta: Seq<char>, estado: EstadoTarea) -> bool {
    &&& estado.categoria == categoria_de(ruta)
    &&& informe_coherente(estado.informe)
    &&& estado.etapa is Heic ==> estado.informe.heic_encontrado
    &&& estado.etapa is Video ==> estado.informe.video_encontrado
    &&& match estado.etapa {
        EtapaTarea::Metadatos => estado.categoria == Categoria::ImagenJpg || estado.categoria
            == Categoria::ImagenPng || estado.categoria == Categoria::ImagenHeic,
        EtapaTarea::Jpg => estado.categoria == Categoria::ImagenJpg,
        EtapaTarea::Png => estado.categoria == Categoria::ImagenPng,
        EtapaTarea::MidiendoHeic => estado.categoria == Categoria::ImagenHeic,
        EtapaTarea::Heic(etapa) => estado.categoria == Categoria::ImagenHeic
            && !(etapa is Terminada),
        EtapaTarea::Video(etapa) => estado.categoria == Categoria::Video && !(etapa is Terminada),
        EtapaTarea::Terminada => true,
    }
}

/// The work starts in a coherent state and stays in one; and in a coherent
/// state there is an action to carry out exactly as long as the work is not
/// done.
pub proof fn lema_tarea_coherente(ruta: Seq<char>, estado: EstadoTarea, evento: Evento)
    ensures
        tarea_coherente(ruta, tarea_inicial(ruta)),
        tarea_coherente(ruta, estado) ==> tarea_coherente(ruta, tarea_siguiente(estado, evento)),
        tarea_coherente(ruta, estado) ==> (tarea_pendiente(ruta, estado) is None
            <==> tarea_terminada(estado)),
{
}

/// Whatever the work on a file asks for refers to that file's own files
/// only.
pub proof fn lema_tarea_referida(ruta: Seq<char>, estado: EstadoTarea)
    ensures
        tarea_pendiente(ruta, estado) matches Some(accion) ==> accion_referida(
            accion,
            archivos_de(ruta),
        ),
{
    match estado.etapa {
        EtapaTarea::Heic(etapa) => {
            lema_heic_referido(ruta, etapa);
        },
        EtapaTarea::Video(etapa) => {
            lema_video_referido(ruta, etapa);
        },
        _ => {},
    }
}

/// A HEIC image that is not larger than the limit, or whose size cannot be
/// read, is not converted: once its size is known the work on it is done, it
/// does not count as found, and no action follows.
pub proof fn lema_heic_pequeno(ruta: Seq<char>, estado: EstadoTarea, evento: Evento)
    requires
        estado.etapa == EtapaTarea::MidiendoHeic,
        !supera_limite(tamano_en(evento)),
    ensures
        tarea_terminada(tarea_siguiente(estado, evento)),
        tarea_siguiente(estado, evento).informe == estado.informe,
        tarea_pendiente(ruta, tarea_siguiente(estado, evento)) is None,
{
}

/// Starts the work on a file.
pub fn iniciar_tarea(archivo: &Archivo) -> (estado: EstadoTarea)
    ensures
        estado == tarea_inicial(archivo@),
{
    let categoria = archivo.categoria();
    let informe = InformeArchivo {
        metadatos_limpiados: false,
        jpg_optimizado: false,
        png_optimizado: false,
        heic_encontrado: false,
        heic_convertido: false,
        video_encontrado: false,
        video: None,
    };
    match categoria {
        Categoria::Otro => EstadoTarea { categoria, etapa: EtapaTarea::Terminada, informe },
        Categoria::Video => EstadoTarea {
            categoria,
            etapa: EtapaTarea::Video(EtapaVideo::MidiendoVideo),
            informe: InformeArchivo { video_encontrado: true, ..informe },
        },
        _ => EstadoTarea { categoria, etapa: EtapaTarea::Metadatos, informe },
    }
}

/// The action that the work on the file at `ruta` asks for in this state.
pub fn accion_tarea(ruta: &str, estado: &EstadoTarea) -> (a: Option<Accion>)
    ensures
        vista_de(a) == tarea_pendiente(ruta@, *estado),
{
    match estado.etapa {
        EtapaTarea::Metadatos => Some(Accion::Ejecutar(armar_orden_metadatos(ruta))),
        EtapaTarea::Jpg => Some(Accion::Ejecutar(armar_orden_jpg(ruta))),
        EtapaTarea::Png => Some(Accion::Ejecutar(armar_orden_png(ruta))),
        EtapaTarea::MidiendoHeic => Some(Accion::MedirArchivo(String::from_str(ruta))),
        EtapaTarea::Heic(etapa) => accion_heic(ruta, etapa),
        EtapaTarea::Video(etapa) => accion_video(ruta, etapa),
        EtapaTarea::Terminada => None,
    }
}

fn fue_exito(evento: Evento) -> (r: bool)
    ensures
        r == hecho_en(evento),
{
    desenlace(leer_ejecucion(evento)).is_ok()
}

/// The state that follows when `evento` answers the pending action.
pub fn avanzar_tarea(estado: EstadoTarea, evento: Evento) -> (e: EstadoTarea)
    ensures
        e == tarea_siguiente(estado, evento),
{
    let informe = estado.informe;
    match estado.etapa {
        EtapaTarea::Metadatos => {
            let etapa = match estado.categoria {
                Categoria::ImagenJpg => EtapaTarea::Jpg,
                Categoria::ImagenPng => EtapaTarea::Png,
                Categoria::ImagenHeic => EtapaTarea::MidiendoHeic,
                _ => EtapaTarea::Terminada,
            };
            EstadoTarea {
                etapa,
                informe: InformeArchivo { metadatos_limpiados: fue_exito(evento), ..informe },
                ..estado
            }
        },
        EtapaTarea::Jpg => EstadoTarea {
            etapa: EtapaTarea::Terminada,
            informe: InformeArchivo { jpg_optimizado: fue_exito(evento), ..informe },
            ..estado
        },
        EtapaTarea::Png => EstadoTarea {
            etapa: EtapaTarea::Terminada,
            informe: InformeArchivo { png_optimizado: fue_exito(evento), ..informe },
            ..estado
        },
        EtapaTarea::MidiendoHeic => {
            let grande = match leer_tamano(evento) {
                Some(n) => n > LIMITE_WEBP,
                None => false,
            };
            if grande {
                EstadoTarea {
                    etapa: EtapaTarea::Heic(EtapaHeic::Decodificando),
                    informe: InformeArchivo { heic_encontrado: true, ..informe },
                    ..estado
                }
            } else {
                EstadoTarea { etapa: EtapaTarea::Terminada, ..estado }
            }
        },
        EtapaTarea::Heic(etapa) => match avanzar_heic(etapa, evento) {
            EtapaHeic::Terminada { resultado } => EstadoTarea {
                etapa: EtapaTarea::Terminada,
                informe: InformeArchivo { heic_convertido: resultado.is_ok(), ..informe },
                ..estado
            },
            otra => EstadoTarea { etapa: EtapaTarea::Heic(otra), ..estado },
        },
        EtapaTarea::Video(etapa) => match avanzar_video(etapa, evento) {
            EtapaVideo::Terminada { resultado } => EstadoTarea {
                etapa: EtapaTarea::Terminada,
                informe: InformeArchivo { video: Some(resultado), ..informe },
                ..estado
            },
            otra => EstadoTarea { etapa: EtapaTarea::Video(otra), ..estado },
        },
        EtapaTarea::Terminada => estado,
    }
}

/// The work on one file, step by step.
#[derive(Debug, PartialEq, Eq)]
pub struct Tarea {
    pub ruta: String,
    pub estado: EstadoTarea,
}

impl Tarea {
    /// Starts the work on the file at `ruta`.
    pub fn iniciar(ruta: &str) -> (t: Self)
        ensures
            t.ruta@ == ruta@,
            t.estado == tarea_inicial(ruta@),
    {
        Tarea { ruta: String::from_str(ruta), estado: iniciar_tarea(&Archivo::nuevo(ruta)) }
    }

    /// The action to carry out now; none once the work is done.
    pub fn pendiente(&self) -> (a: Option<Accion>)
        ensures
            vista_de(a) == tarea_pendiente(self.ruta@, self.estado),
    {
        accion_tarea(self.ruta.as_str(), &self.estado)
    }

    /// Takes the answer to the pending action and moves on.
    pub fn avanzar(&mut self, evento: Evento)
        ensures
            final(self).ruta@ == old(self).ruta@,
            final(self).estado == tarea_siguiente(old(self).estado, evento),
    {
        self.estado = avanzar_tarea(self.estado, evento);
    }

    /// Whether the work is done.
    pub fn terminada(&self) -> (r: bool)
        ensures
            r == tarea_terminada(self.estado),
    {
        match self.estado.etapa {
            EtapaTarea::Terminada => true,
            _ => false,
        }
    }

    /// What has been done with the file so far.
    pub fn informe(&self) -> (i: InformeArchivo)
        ensures
            i == self.estado.informe,
    {
        self.estado.informe
    }
}

/// The state and the disk reached when the model answers each pending action
/// in turn, for at most `pasos` actions.
pub open spec fn tarea_correr(
    mundo: Mundo,
    ruta: Seq<char>,
    estado: EstadoTarea,
    disco: Disco,
    pasos: nat,
) -> (EstadoTarea, Disco)
    decreases pasos,
{
    match tarea_pendiente(ruta, estado) {
        Some(accion) if pasos > 0 => {
            let (evento, despues) = reaccion(mundo, disco, 0, accion);
            tarea_correr(mundo, ruta, tarea_siguiente(estado, evento), despues, (pasos - 1) as nat)
        },
        _ => (estado, disco),
    }
}

/// The most actions that the work on the file can still ask for.
pub open spec fn tarea_restantes(estado: EstadoTarea) -> nat {
    match estado.etapa {
        EtapaTarea::Metadatos => 8,
        EtapaTarea::Jpg => 1,
        EtapaTarea::Png => 1,
        EtapaTarea::MidiendoHeic => 7,
        EtapaTarea::Heic(etapa) => heic_restantes(etapa),
        EtapaTarea::Video(etapa) => video_restantes(etapa),
        EtapaTarea::Terminada => 0,
    }
}

/// Every step brings the work on a file nearer to its end, which comes after
/// eight actions at most. No stage is reached twice, so each tool runs at
/// most once for a file.
pub proof fn lema_tarea_avanza(ruta: Seq<char>, estado: EstadoTarea, evento: Evento)
    requires
        tarea_coherente(ruta, estado),
    ensures
        tarea_restantes(estado) <= 8,
        tarea_restantes(estado) == 0 <==> tarea_terminada(estado),
        !tarea_terminada(estado) ==> tarea_restantes(tarea_siguiente(estado, evento))
            < tarea_restantes(estado),
{
    match estado.etapa {
        EtapaTarea::Heic(etapa) => {
            lema_heic_avanza(etapa, evento);
        },
        EtapaTarea::Video(etapa) => {
            lema_video_avanza(etapa, evento);
        },
        _ => {},
    }
}

/// What the work on a file comes to, whatever the tools and the file system
/// do: it ends, within as many actions as were still to come, and on the
/// disk nothing has changed but own files of the file.
pub proof fn lema_tarea_termina(
    mundo: Mundo,
    ruta: Seq<char>,
    estado: EstadoTarea,
    disco: Disco,
    pasos: nat,
)
    requires
        tarea_coherente(ruta, estado),
        pasos >= tarea_restantes(estado),
    ensures
        ({
            let (fin, despues) = tarea_correr(mundo, ruta, estado, disco, pasos);
            &&& tarea_terminada(fin)
            &&& tarea_coherente(ruta, fin)
            &&& fin.categoria == estado.categoria
            &&& iguales_salvo(despues, disco, archivos_de(ruta))
        }),
    decreases pasos,
{
    if let Some(accion) = tarea_pendiente(ruta, estado) {
        let (evento, disco2) = reaccion(mundo, disco, 0, accion);
        let estado2 = tarea_siguiente(estado, evento);
        lema_tarea_coherente(ruta, estado, evento);
        lema_tarea_avanza(ruta, estado, evento);
        lema_tarea_referida(ruta, estado);
        lema_reaccion_local(mundo, disco, 0, accion, archivos_de(ruta));
        lema_tarea_termina(mundo, ruta, estado2, disco2, (pasos - 1) as nat);
        let (fin, despues) = tarea_correr(mundo, ruta, estado2, disco2, (pasos - 1) as nat);
        assert forall|otra: Seq<char>|
            !archivos_de(ruta).contains(otra) implies #[trigger] coinciden_en(
            despues,
            disco,
            otra,
        ) by {
            assert(coinciden_en(despues, disco2, otra));
            assert(coinciden_en(disco2, disco, otra));
        }
    } else {
        lema_tarea_coherente(ruta, estado, Evento::Borrado);
    }
}

/// Whether the metadata stripper leaves the HEIC image at `ruta` larger than
/// the limit, with a size that can be read.
pub open spec fn heic_grande(mundo: Mundo, ruta: Seq<char>, disco: Disco) -> bool {
    let limpio = disco_tras_orden(mundo, disco, orden_metadatos(ruta));
    limpio.dom().contains(ruta) && (mundo.mide)(ruta, limpio) && limpio[ruta] > LIMITE_WEBP
}

/// A HEIC image that is not larger than the limit is left as the metadata
/// stripper left it, and does not count as found: the work on it ends after
/// the stripping and the measuring, and the disk is the one that the
/// stripper left.
pub proof fn lema_heic_pequeno_en_modelo(mundo: Mundo, ruta: Seq<char>, disco: Disco)
    requires
        ruta_es_imagen_heic(ruta),
        !heic_grande(mundo, ruta, disco),
    ensures
        ({
            let (fin, despues) = tarea_correr(mundo, ruta, tarea_inicial(ruta), disco, 8);
            &&& tarea_terminada(fin)
            &&& despues == disco_tras_orden(mundo, disco, orden_metadatos(ruta))
            &&& !fin.informe.heic_encontrado
            &&& !fin.informe.heic_convertido
            &&& fin.informe.metadatos_limpiados == es_exito(
                (mundo.corre)(orden_metadatos(ruta), disco),
            )
        }),
{
    lema_categoria_y_predicados(ruta);
    reveal_with_fuel(tarea_correr, 3);
}

} // verus!
