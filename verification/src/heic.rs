//! Converting a HEIC image to WebP.
//!
//! The image is decoded into an intermediate JPEG, which is then encoded as
//! WebP. When both stages succeed and each left its file, the intermediate
//! JPEG and the image are removed and the WebP stays. When anything else
//! happens the image is not touched, and both the intermediate JPEG and
//! the WebP are removed.

use crate::clasificador::{es_imagen_heic, ruta_es_imagen_heic};
use crate::modelo::{accion_referida, disco_tras_orden, iguales_salvo, reaccion, Disco, Mundo};
use crate::ordenes::{
    archivos_de, armar_orden_codificar, armar_orden_decodificar, intermedio_heic,
    nombrar_intermedio_heic, nombrar_salida_heic, orden_codificar, orden_decodificar, salida_heic,
};
use crate::proceso::{
    ejecucion_en, error_de, es_exito, existe_en, leer_ejecucion, leer_existencia, vista_de,
    Accion, AccionVista, Ejecucion, ErrorOperacion, Evento, ResultadoProceso,
};
use crate::rutas::{
    extension, lema_inicio_nombre, lema_punto_extension, minuscula, minusculas, punto_extension,
};
use vstd::prelude::*;
use vstd::string::*;

verus! {

/// Where the conversion of one HEIC image stands.
#[derive(Clone, Copy, Debug, PartialEq, Eq)]
pub enum EtapaHeic {
    /// Waiting for the decoder.
    Decodificando,
    /// Waiting to learn whether the decoder left the intermediate JPEG.
    ComprobandoIntermedio,
    /// Waiting for the encoder.
    Codificando,
    /// Waiting to learn whether the encoder left the WebP.
    ComprobandoSalida,
    /// Both stages succeeded; waiting for the intermediate JPEG to be removed.
    RetirandoIntermedio,
    /// Both stages succeeded; waiting for the image to be removed.
    RetirandoImagen,
    /// The conversion failed; waiting for the intermediate JPEG to be removed.
    LimpiandoIntermedio { motivo: ErrorOperacion },
    /// The conversion failed; waiting for the WebP to be removed.
    LimpiandoSalida { motivo: ErrorOperacion },
    /// Done: converted, or why not.
    Terminada { resultado: Result<(), ErrorOperacion> },
}

/// The stage at which the conversion starts. A path that is no HEIC image is
/// refused at once.
pub open spec fn heic_inicial(ruta: Seq<char>) -> EtapaHeic {
    if ruta_es_imagen_heic(ruta) {
        EtapaHeic::Decodificando
    } else {
        EtapaHeic::Terminada { resultado: Err(ErrorOperacion::FormatoAjeno) }
    }
}

/// What the conversion asks for at each stage; nothing once it is done.
pub open spec fn heic_pendiente(ruta: Seq<char>, etapa: EtapaHeic) -> Option<AccionVista> {
    match etapa {
        EtapaHeic::Decodificando => Some(AccionVista::Ejecutar(orden_decodificar(ruta))),
        EtapaHeic::ComprobandoIntermedio => Some(
            AccionVista::ComprobarArchivo(intermedio_heic(ruta)),
        ),
        EtapaHeic::Codificando => Some(AccionVista::Ejecutar(orden_codificar(ruta))),
        EtapaHeic::ComprobandoSalida => Some(AccionVista::ComprobarArchivo(salida_heic(ruta))),
        EtapaHeic::RetirandoIntermedio => Some(AccionVista::BorrarArchivo(intermedio_heic(ruta))),
        EtapaHeic::RetirandoImagen => Some(AccionVista::BorrarArchivo(ruta)),
        EtapaHeic::LimpiandoIntermedio { .. } => Some(
            AccionVista::BorrarArchivo(intermedio_heic(ruta)),
        ),
        EtapaHeic::LimpiandoSalida { .. } => Some(AccionVista::BorrarArchivo(salida_heic(ruta))),
        EtapaHeic::Terminada { .. } => None,
    }
}

/// Where a stage's tool leads: on to `exito` after a success, and to the
/// cleanup after anything else.
pub open spec fn heic_tras_herramienta(ejecucion: Ejecucion, exito: EtapaHeic) -> EtapaHeic {
    if es_exito(ejecucion) {
        exito
    } else {
        EtapaHeic::LimpiandoIntermedio { motivo: error_de(ejecucion) }
    }
}

/// Where the look at a stage's file leads: on to `exito` when it is there,
/// and to the cleanup when it is not.
pub open spec fn heic_tras_comprobar(existe: bool, exito: EtapaHeic) -> EtapaHeic {
    if existe {
        exito
    } else {
        EtapaHeic::LimpiandoIntermedio { motivo: ErrorOperacion::SinSalida }
    }
}

/// The stage that follows when `evento` answers the pending action.
pub open spec fn heic_siguiente(etapa: EtapaHeic, evento: Evento) -> EtapaHeic {
    match etapa {
        EtapaHeic::Decodificando => heic_tras_herramienta(
            ejecucion_en(evento),
            EtapaHeic::ComprobandoIntermedio,
        ),
        EtapaHeic::ComprobandoIntermedio => heic_tras_comprobar(
            existe_en(evento),
            EtapaHeic::Codificando,
        ),
        EtapaHeic::Codificando => heic_tras_herramienta(
            ejecucion_en(evento),
            EtapaHeic::ComprobandoSalida,
        ),
        EtapaHeic::ComprobandoSalida => heic_tras_comprobar(
            existe_en(evento),
            EtapaHeic::RetirandoIntermedio,
        ),
        EtapaHeic::RetirandoIntermedio => EtapaHeic::RetirandoImagen,
        EtapaHeic::RetirandoImagen => EtapaHeic::Terminada { resultado: Ok(()) },
        EtapaHeic::LimpiandoIntermedio { motivo } => EtapaHeic::LimpiandoSalida { motivo },
        EtapaHeic::LimpiandoSalida { motivo } => EtapaHeic::Terminada { resultado: Err(motivo) },
        EtapaHeic::Terminada { resultado } => EtapaHeic::Terminada { resultado },
    }
}

/// The outcome, once the conversion is done.
pub open spec fn heic_resultado(etapa: EtapaHeic) -> Option<Result<(), ErrorOperacion>> {
    match etapa {
        EtapaHeic::Terminada { resultado } => Some(resultado),
        _ => None,
    }
}

fn tras_herramienta(ejecucion: Ejecucion, exito: EtapaHeic) -> (e: EtapaHeic)
    ensures
        e == heic_tras_herramienta(ejecucion, exito),
{
    match ejecucion {
        Ejecucion::Concluida(ResultadoProceso::Exito) => exito,
        Ejecucion::Concluida(ResultadoProceso::TiempoAgotado) => EtapaHeic::LimpiandoIntermedio {
            motivo: ErrorOperacion::TiempoAgotado,
        },
        Ejecucion::Concluida(ResultadoProceso::FalloHerramienta(c)) => {
            EtapaHeic::LimpiandoIntermedio { motivo: ErrorOperacion::Herramienta(c) }
        },
        Ejecucion::NoLanzado => EtapaHeic::LimpiandoIntermedio {
            motivo: ErrorOperacion::NoLanzado,
        },
        Ejecucion::EsperaFallida => EtapaHeic::LimpiandoIntermedio {
            motivo: ErrorOperacion::EsperaFallida,
        },
    }
}

fn tras_comprobar(existe: bool, exito: EtapaHeic) -> (e: EtapaHeic)
    ensures
        e == heic_tras_comprobar(existe, exito),
{
    if existe {
        exito
    } else {
        EtapaHeic::LimpiandoIntermedio { motivo: ErrorOperacion::SinSalida }
    }
}

/// The action that the conversion of the image at `ruta` asks for at `etapa`.
pub fn accion_heic(ruta: &str, etapa: EtapaHeic) -> (a: Option<Accion>)
    ensures
        vista_de(a) == heic_pendiente(ruta@, etapa),
{
    match etapa {
        EtapaHeic::Decodificando => Some(Accion::Ejecutar(armar_orden_decodificar(ruta))),
        EtapaHeic::ComprobandoIntermedio => Some(
            Accion::ComprobarArchivo(nombrar_intermedio_heic(ruta)),
        ),
        EtapaHeic::Codificando => Some(Accion::Ejecutar(armar_orden_codificar(ruta))),
        EtapaHeic::ComprobandoSalida => Some(
            Accion::ComprobarArchivo(nombrar_salida_heic(ruta)),
        ),
        EtapaHeic::RetirandoIntermedio => Some(
            Accion::BorrarArchivo(nombrar_intermedio_heic(ruta)),
        ),
        EtapaHeic::RetirandoImagen => Some(Accion::BorrarArchivo(String::from_str(ruta))),
        EtapaHeic::LimpiandoIntermedio { .. } => Some(
            Accion::BorrarArchivo(nombrar_intermedio_heic(ruta)),
        ),
        EtapaHeic::LimpiandoSalida { .. } => Some(
            Accion::BorrarArchivo(nombrar_salida_heic(ruta)),
        ),
        EtapaHeic::Terminada { .. } => None,
    }
}

/// The stage that follows `etapa` when `evento` answers its action.
pub fn avanzar_heic(etapa: EtapaHeic, evento: Evento) -> (e: EtapaHeic)
    ensures
        e == heic_siguiente(etapa, evento),
{
    match etapa {
        EtapaHeic::Decodificando => tras_herramienta(
            leer_ejecucion(evento),
            EtapaHeic::ComprobandoIntermedio,
        ),
        EtapaHeic::ComprobandoIntermedio => tras_comprobar(
            leer_existencia(evento),
            EtapaHeic::Codificando,
        ),
        EtapaHeic::Codificando => tras_herramienta(
            leer_ejecucion(evento),
            EtapaHeic::ComprobandoSalida,
        ),
        EtapaHeic::ComprobandoSalida => tras_comprobar(
            leer_existencia(evento),
            EtapaHeic::RetirandoIntermedio,
        ),
        EtapaHeic::RetirandoIntermedio => EtapaHeic::RetirandoImagen,
        EtapaHeic::RetirandoImagen => EtapaHeic::Terminada { resultado: Ok(()) },
        EtapaHeic::LimpiandoIntermedio { motivo } => EtapaHeic::LimpiandoSalida { motivo },
        EtapaHeic::LimpiandoSalida { motivo } => EtapaHeic::Terminada {
            resultado: Err(motivo),
        },
        EtapaHeic::Terminada { resultado } => EtapaHeic::Terminada { resultado },
    }
}

/// The conversion of one HEIC image, step by step.
#[derive(Debug, PartialEq, Eq)]
pub struct ConversionHeic {
    pub ruta: String,
    pub etapa: EtapaHeic,
}

impl ConversionHeic {
    /// Starts the conversion of the image at `ruta`.
    pub fn iniciar(ruta: &str) -> (m: Self)
        ensures
            m.ruta@ == ruta@,
            m.etapa == heic_inicial(ruta@),
    {
        let etapa = if es_imagen_heic(ruta) {
            EtapaHeic::Decodificando
        } else {
            EtapaHeic::Terminada { resultado: Err(ErrorOperacion::FormatoAjeno) }
        };
        ConversionHeic { ruta: String::from_str(ruta), etapa }
    }

    /// The action to carry out now; none once the conversion is done.
    pub fn pendiente(&self) -> (a: Option<Accion>)
        ensures
            vista_de(a) == heic_pendiente(self.ruta@, self.etapa),
    {
        accion_heic(self.ruta.as_str(), self.etapa)
    }

    /// Takes the answer to the pending action and moves to the next stage.
    pub fn avanzar(&mut self, evento: Evento)
        ensures
            final(self).ruta@ == old(self).ruta@,
            final(self).etapa == heic_siguiente(old(self).etapa, evento),
    {
        self.etapa = avanzar_heic(self.etapa, evento);
    }

    /// Whether the image was converted, or why not, once the conversion is
    /// done.
    pub fn resultado(&self) -> (r: Option<Result<(), ErrorOperacion>>)
        ensures
            r == heic_resultado(self.etapa),
    {
        match self.etapa {
            EtapaHeic::Terminada { resultado } => Some(resultado),
            _ => None,
        }
    }
}

/// The stage and the disk reached when the model answers each pending action
/// in turn, for at most `pasos` actions.
pub open spec fn heic_correr(
    mundo: Mundo,
    ruta: Seq<char>,
    etapa: EtapaHeic,
    disco: Disco,
    pasos: nat,
) -> (EtapaHeic, Disco)
    decreases pasos,
{
    match heic_pendiente(ruta, etapa) {
        Some(accion) if pasos > 0 => {
            let (evento, despues) = reaccion(mundo, disco, 0, accion);
            heic_correr(mundo, ruta, heic_siguiente(etapa, evento), despues, (pasos - 1) as nat)
        },
        _ => (etapa, disco),
    }
}

/// The image, its intermediate JPEG and its WebP are three different files.
pub proof fn lema_archivos_heic_distintos(ruta: Seq<char>)
    requires
        ruta_es_imagen_heic(ruta),
    ensures
        intermedio_heic(ruta) != ruta,
        salida_heic(ruta) != ruta,
        intermedio_heic(ruta) != salida_heic(ruta),
{
    reveal_strlit("heic");
    reveal_strlit("jpg");
    reveal_strlit("webp");
    lema_punto_extension(ruta);
    lema_inicio_nombre(ruta);
    let p = punto_extension(ruta)->0;
    let ext = extension(ruta)->0;
    assert(minusculas(ext).len() == ext.len());
    assert(minusculas(ext)[0] == minuscula(ext[0]));
    assert(ruta[p + 1] != 'w');
    assert(salida_heic(ruta)[p + 1] == 'w');
}

/// Whether both stages run to success on this disk and each leaves its file.
pub open spec fn convertible(mundo: Mundo, ruta: Seq<char>, disco: Disco) -> bool {
    let decodificado = disco_tras_orden(mundo, disco, orden_decodificar(ruta));
    &&& es_exito((mundo.corre)(orden_decodificar(ruta), disco))
    &&& (mundo.escribe)(orden_decodificar(ruta), disco) is Some
    &&& es_exito((mundo.corre)(orden_codificar(ruta), decodificado))
    &&& (mundo.escribe)(orden_codificar(ruta), decodificado) is Some
}

/// What the conversion of a HEIC image that exists comes to, whatever the
/// tools do.
///
/// The conversion ends within six actions and leaves no intermediate JPEG,
/// and no file other than the image, the intermediate JPEG and the WebP has
/// changed. It succeeds exactly when both stages run to success and each
/// leaves its file. After a success the WebP is there and the image is gone.
/// After a failure the image is there as it was, and the WebP is not.
pub proof fn lema_heic(mundo: Mundo, ruta: Seq<char>, disco: Disco)
    requires
        ruta_es_imagen_heic(ruta),
        disco.dom().contains(ruta),
    ensures
        ({
            let intermedio = intermedio_heic(ruta);
            let salida = salida_heic(ruta);
            let (fin, despues) = heic_correr(mundo, ruta, heic_inicial(ruta), disco, 6);
            &&& heic_pendiente(ruta, fin) is None
            &&& heic_resultado(fin) is Some
            &&& !despues.dom().contains(intermedio)
            &&& iguales_salvo(despues, disco, set![ruta, intermedio, salida])
            &&& heic_resultado(fin)->0 is Ok <==> convertible(mundo, ruta, disco)
            &&& heic_resultado(fin)->0 is Ok ==> despues.dom().contains(salida)
                && !despues.dom().contains(ruta)
            &&& heic_resultado(fin)->0 is Err ==> despues.dom().contains(ruta) && despues[ruta]
                == disco[ruta] && !despues.dom().contains(salida)
        }),
{
    lema_archivos_heic_distintos(ruta);
    reveal_with_fuel(heic_correr, 7);
}

/// Whatever the conversion of a HEIC image asks for refers to the image, to
/// its intermediate JPEG and to its WebP only.
pub proof fn lema_heic_referido(ruta: Seq<char>, etapa: EtapaHeic)
    ensures
        heic_pendiente(ruta, etapa) matches Some(accion) ==> accion_referida(
            accion,
            set![ruta, intermedio_heic(ruta), salida_heic(ruta)],
        ) && accion_referida(accion, archivos_de(ruta)),
{
}

/// The most actions that the conversion can still ask for at this stage.
pub open spec fn heic_restantes(etapa: EtapaHeic) -> nat {
    match etapa {
        EtapaHeic::Decodificando => 6,
        EtapaHeic::ComprobandoIntermedio => 5,
        EtapaHeic::Codificando => 4,
        EtapaHeic::ComprobandoSalida => 3,
        EtapaHeic::RetirandoIntermedio => 2,
        EtapaHeic::RetirandoImagen => 1,
        EtapaHeic::LimpiandoIntermedio { .. } => 2,
        EtapaHeic::LimpiandoSalida { .. } => 1,
        EtapaHeic::Terminada { .. } => 0,
    }
}

/// Every step brings the conversion nearer to its end, so no stage is
/// reached twice: each of the two tools runs at most once for an image.
pub proof fn lema_heic_avanza(etapa: EtapaHeic, evento: Evento)
    ensures
        heic_restantes(etapa) == 0 <==> etapa is Terminada,
        !(etapa is Terminada) ==> heic_restantes(heic_siguiente(etapa, evento)) < heic_restantes(
            etapa,
        ),
{
}

} // verus!
