use optimizador_medios::bucle::{Bucle, Fase};
use optimizador_medios::clasificador::{Archivo, Categoria};
use optimizador_medios::contadores::Contadores;
use optimizador_medios::heic::{accion_heic, avanzar_heic, ConversionHeic, EtapaHeic};
use optimizador_medios::ordenes::{
    armar_orden_codificar, armar_orden_decodificar, armar_orden_jpg, armar_orden_metadatos,
    armar_orden_png, armar_orden_transcodificar,
};
use optimizador_medios::proceso::{
    Accion, Ejecucion, ErrorOperacion, Evento, Orden, ResultadoProceso,
};
use optimizador_medios::tarea::{
    accion_tarea, avanzar_tarea, iniciar_tarea, EstadoTarea, EtapaTarea, InformeArchivo, Tarea,
    LIMITE_WEBP,
};
use optimizador_medios::video::{accion_video, avanzar_video, EtapaVideo, OptimizacionVideo};
use std::collections::BTreeMap;

const EXITO: Ejecucion = Ejecucion::Concluida(ResultadoProceso::Exito);
const VENCIDO: Ejecucion = Ejecucion::Concluida(ResultadoProceso::TiempoAgotado);
const FALLO: Ejecucion = Ejecucion::Concluida(ResultadoProceso::FalloHerramienta(Some(1)));

/// A disk and tools that behave as told, for driving the machines.
struct Falso {
    disco: BTreeMap<String, u64>,
    /// How each program ends, and the size of what it leaves in its output.
    programas: BTreeMap<String, (Ejecucion, Option<u64>)>,
    mueve: bool,
    /// The number of files after which cancellation is requested.
    cancelar_tras: Option<usize>,
    consultas: usize,
    acciones: Vec<Accion>,
}

impl Falso {
    fn nuevo(archivos: &[(&str, u64)]) -> Falso {
        let mut programas = BTreeMap::new();
        for p in ["exiftool", "jpegoptim", "optipng"] {
            programas.insert(p.to_string(), (EXITO, None));
        }
        programas.insert("heif-convert".to_string(), (EXITO, Some(900)));
        programas.insert("cwebp".to_string(), (EXITO, Some(300)));
        programas.insert("nice".to_string(), (EXITO, Some(1000)));
        Falso {
            disco: archivos.iter().map(|(r, n)| (r.to_string(), *n)).collect(),
            programas,
            mueve: true,
            cancelar_tras: None,
            consultas: 0,
            acciones: Vec::new(),
        }
    }

    fn programa(mut self, nombre: &str, fin: Ejecucion, salida: Option<u64>) -> Falso {
        self.programas.insert(nombre.to_string(), (fin, salida));
        self
    }

    fn ejecutar(&mut self, orden: &Orden) -> Ejecucion {
        let (fin, salida) = self.programas[&orden.programa];
        let destino = orden.argumentos.last().unwrap().clone();
        let en_sitio = ["exiftool", "jpegoptim", "optipng"].contains(&orden.programa.as_str());
        if !en_sitio {
            match salida {
                Some(n) => {
                    self.disco.insert(destino, n);
                }
                None => {
                    self.disco.remove(&destino);
                }
            }
        }
        fin
    }

    fn responder(&mut self, accion: Accion) -> Evento {
        let evento = match &accion {
            Accion::Ejecutar(orden) => Evento::Proceso(self.ejecutar(orden)),
            Accion::MedirArchivo(ruta) => Evento::Tamano(self.disco.get(ruta).copied()),
            Accion::ComprobarArchivo(ruta) => Evento::Existencia(self.disco.contains_key(ruta)),
            Accion::BorrarArchivo(ruta) => {
                self.disco.remove(ruta);
                Evento::Borrado
            }
            Accion::Renombrar { origen, destino } => {
                if self.mueve && self.disco.contains_key(origen) {
                    let n = self.disco.remove(origen).unwrap();
                    self.disco.insert(destino.clone(), n);
                    Evento::Renombrado(true)
                } else {
                    Evento::Renombrado(false)
                }
            }
            Accion::ConsultarCancelacion => {
                let pedida = self.cancelar_tras == Some(self.consultas);
                self.consultas += 1;
                Evento::Cancelacion(pedida)
            }
        };
        self.acciones.push(accion);
        evento
    }

    fn video(&mut self, ruta: &str) -> Result<u64, ErrorOperacion> {
        let mut m = OptimizacionVideo::iniciar(ruta);
        let mut pasos = 0;
        while let Some(accion) = m.pendiente() {
            let evento = self.responder(accion);
            m.avanzar(evento);
            pasos += 1;
            assert!(pasos <= 6);
        }
        m.resultado().unwrap()
    }

    fn heic(&mut self, ruta: &str) -> Result<(), ErrorOperacion> {
        let mut m = ConversionHeic::iniciar(ruta);
        let mut pasos = 0;
        while let Some(accion) = m.pendiente() {
            let evento = self.responder(accion);
            m.avanzar(evento);
            pasos += 1;
            assert!(pasos <= 6);
        }
        m.resultado().unwrap()
    }

    fn tarea(&mut self, ruta: &str) -> InformeArchivo {
        let mut t = Tarea::iniciar(ruta);
        while let Some(accion) = t.pendiente() {
            let evento = self.responder(accion);
            t.avanzar(evento);
        }
        assert!(t.terminada());
        t.informe()
    }

    fn bucle(&mut self, archivos: &[&str]) -> Bucle {
        let mut b = Bucle::nuevo(archivos.iter().map(|r| Archivo::nuevo(r)).collect());
        while let Some(accion) = b.pendiente() {
            let evento = self.responder(accion);
            b = b.avanzar(evento);
        }
        b
    }

    fn archivos(&self) -> Vec<(&str, u64)> {
        self.disco.iter().map(|(r, n)| (r.as_str(), *n)).collect()
    }
}

const MB: u64 = 1024 * 1024;

fn en_blanco() -> InformeArchivo {
    InformeArchivo {
        metadatos_limpiados: false,
        jpg_optimizado: false,
        png_optimizado: false,
        heic_encontrado: false,
        heic_convertido: false,
        video_encontrado: false,
        video: None,
    }
}

#[test]
fn video_mas_pequeno_reemplaza_al_anterior() {
    let mut f = Falso::nuevo(&[("v/clip.mp4", 5000), ("otro.txt", 1)]);
    assert_eq!(f.video("v/clip.mp4"), Ok(4000));
    assert_eq!(f.archivos(), vec![("otro.txt", 1), ("v/clip.mp4", 1000)]);
    assert_eq!(
        f.acciones,
        vec![
            Accion::MedirArchivo("v/clip.mp4".to_string()),
            Accion::Ejecutar(armar_orden_transcodificar("v/clip.mp4")),
            Accion::ComprobarArchivo("v/clip.opt.mp4".to_string()),
            Accion::MedirArchivo("v/clip.opt.mp4".to_string()),
            Accion::Renombrar {
                origen: "v/clip.opt.mp4".to_string(),
                destino: "v/clip.mp4".to_string()
            },
        ]
    );
}

#[test]
fn video_un_byte_mas_pequeno() {
    let mut f = Falso::nuevo(&[("clip.MOV", 1001)]);
    assert_eq!(f.video("clip.MOV"), Ok(1));
    assert_eq!(f.archivos(), vec![("clip.MOV", 1000)]);
}

#[test]
fn video_igual_no_reemplaza() {
    let mut f = Falso::nuevo(&[("clip.mp4", 1000)]);
    assert_eq!(f.video("clip.mp4"), Ok(0));
    assert_eq!(f.archivos(), vec![("clip.mp4", 1000)]);
    assert_eq!(f.acciones.last(), Some(&Accion::BorrarArchivo("clip.opt.mp4".to_string())));
}

#[test]
fn video_mas_grande_no_reemplaza() {
    let mut f = Falso::nuevo(&[("clip.mp4", 999)]);
    assert_eq!(f.video("clip.mp4"), Ok(0));
    assert_eq!(f.archivos(), vec![("clip.mp4", 999)]);
}

#[test]
fn video_con_fallo_es_error_y_no_deja_temporal() {
    let mut f = Falso::nuevo(&[("clip.mp4", 5000)]).programa("nice", FALLO, Some(10));
    assert_eq!(f.video("clip.mp4"), Err(ErrorOperacion::Herramienta(Some(1))));
    assert_eq!(f.archivos(), vec![("clip.mp4", 5000)]);
}

#[test]
fn video_con_limite_vencido_ahorra_cero() {
    let mut f = Falso::nuevo(&[("clip.mp4", 5000)]).programa("nice", VENCIDO, Some(10));
    assert_eq!(f.video("clip.mp4"), Ok(0));
    assert_eq!(f.archivos(), vec![("clip.mp4", 5000)]);
}

#[test]
fn video_sin_lanzar_ni_esperar() {
    let mut f = Falso::nuevo(&[("clip.mp4", 5000)]).programa("nice", Ejecucion::NoLanzado, None);
    assert_eq!(f.video("clip.mp4"), Err(ErrorOperacion::NoLanzado));
    let mut f =
        Falso::nuevo(&[("clip.mp4", 5000)]).programa("nice", Ejecucion::EsperaFallida, Some(3));
    assert_eq!(f.video("clip.mp4"), Err(ErrorOperacion::EsperaFallida));
    assert_eq!(f.archivos(), vec![("clip.mp4", 5000)]);
}

#[test]
fn video_sin_salida_es_error() {
    let mut f = Falso::nuevo(&[("clip.mp4", 5000)]).programa("nice", EXITO, None);
    assert_eq!(f.video("clip.mp4"), Err(ErrorOperacion::SinSalida));
    assert_eq!(f.archivos(), vec![("clip.mp4", 5000)]);
}

#[test]
fn video_que_no_se_puede_medir() {
    let mut f = Falso::nuevo(&[("clip.opt.mp4", 77)]);
    assert_eq!(f.video("clip.mp4"), Err(ErrorOperacion::SinTamano));
    assert_eq!(f.archivos(), vec![]);
    assert_eq!(
        f.acciones,
        vec![
            Accion::MedirArchivo("clip.mp4".to_string()),
            Accion::BorrarArchivo("clip.opt.mp4".to_string()),
        ]
    );
}

#[test]
fn video_que_no_se_puede_mover() {
    let mut f = Falso::nuevo(&[("clip.mp4", 5000)]);
    f.mueve = false;
    assert_eq!(f.video("clip.mp4"), Err(ErrorOperacion::NoReemplazado));
    assert_eq!(f.archivos(), vec![("clip.mp4", 5000)]);
}

#[test]
fn lo_que_no_es_video_no_se_toca() {
    let mut f = Falso::nuevo(&[("foto.jpg", 5000)]);
    assert_eq!(f.video("foto.jpg"), Ok(0));
    assert_eq!(f.acciones, vec![]);
    assert_eq!(f.archivos(), vec![("foto.jpg", 5000)]);
}

#[test]
fn etapas_del_video() {
    let e = EtapaVideo::MidiendoVideo;
    assert_eq!(accion_video("c.mp4", e), Some(Accion::MedirArchivo("c.mp4".to_string())));
    let e = avanzar_video(e, Evento::Tamano(Some(10)));
    assert_eq!(e, EtapaVideo::Transcodificando { tamano: 10 });
    let e = avanzar_video(e, Evento::Proceso(EXITO));
    assert_eq!(e, EtapaVideo::ComprobandoCandidato { tamano: 10 });
    let e = avanzar_video(e, Evento::Existencia(true));
    assert_eq!(e, EtapaVideo::MidiendoCandidato { tamano: 10 });
    let e = avanzar_video(e, Evento::Tamano(Some(4)));
    assert_eq!(e, EtapaVideo::Reemplazando { ahorro: 6 });
    let e = avanzar_video(e, Evento::Renombrado(true));
    assert_eq!(e, EtapaVideo::Terminada { resultado: Ok(6) });
    assert_eq!(accion_video("c.mp4", e), None);
    assert_eq!(avanzar_video(e, Evento::Borrado), e);
    let sin = avanzar_video(EtapaVideo::MidiendoCandidato { tamano: 10 }, Evento::Tamano(None));
    assert_eq!(sin, EtapaVideo::Descartando { resultado: Err(ErrorOperacion::SinTamano) });
    let ajeno = avanzar_video(EtapaVideo::Transcodificando { tamano: 10 }, Evento::Borrado);
    assert_eq!(ajeno, EtapaVideo::Descartando { resultado: Err(ErrorOperacion::EsperaFallida) });
}

#[test]
fn heic_convertido_deja_solo_el_webp() {
    let mut f = Falso::nuevo(&[("a/foto.heic", 5 * MB), ("a/otra.png", 9)]);
    assert_eq!(f.heic("a/foto.heic"), Ok(()));
    assert_eq!(f.archivos(), vec![("a/foto.webp", 300), ("a/otra.png", 9)]);
    assert_eq!(
        f.acciones,
        vec![
            Accion::Ejecutar(armar_orden_decodificar("a/foto.heic")),
            Accion::ComprobarArchivo("a/foto.jpg".to_string()),
            Accion::Ejecutar(armar_orden_codificar("a/foto.heic")),
            Accion::ComprobarArchivo("a/foto.webp".to_string()),
            Accion::BorrarArchivo("a/foto.jpg".to_string()),
            Accion::BorrarArchivo("a/foto.heic".to_string()),
        ]
    );
}

#[test]
fn heic_con_fallo_al_decodificar() {
    for fin in [FALLO, VENCIDO, Ejecucion::NoLanzado, Ejecucion::EsperaFallida] {
        let mut f = Falso::nuevo(&[("foto.HEIC", 5 * MB)]).programa("heif-convert", fin, Some(40));
        assert!(f.heic("foto.HEIC").is_err());
        assert_eq!(f.archivos(), vec![("foto.HEIC", 5 * MB)]);
    }
    let mut f = Falso::nuevo(&[("foto.heic", 5 * MB)]).programa("heif-convert", FALLO, None);
    assert_eq!(f.heic("foto.heic"), Err(ErrorOperacion::Herramienta(Some(1))));
    let mut f = Falso::nuevo(&[("foto.heic", 5 * MB)]).programa("heif-convert", VENCIDO, None);
    assert_eq!(f.heic("foto.heic"), Err(ErrorOperacion::TiempoAgotado));
    assert_eq!(
        f.acciones,
        vec![
            Accion::Ejecutar(armar_orden_decodificar("foto.heic")),
            Accion::BorrarArchivo("foto.jpg".to_string()),
            Accion::BorrarArchivo("foto.webp".to_string()),
        ]
    );
}

#[test]
fn heic_con_fallo_al_codificar() {
    for fin in [FALLO, VENCIDO, Ejecucion::NoLanzado, Ejecucion::EsperaFallida] {
        let mut f = Falso::nuevo(&[("foto.heic", 5 * MB)]).programa("cwebp", fin, Some(40));
        assert!(f.heic("foto.heic").is_err());
        assert_eq!(f.archivos(), vec![("foto.heic", 5 * MB)]);
    }
}

#[test]
fn heic_sin_archivo_intermedio_o_sin_salida() {
    let mut f = Falso::nuevo(&[("foto.heic", 5 * MB)]).programa("heif-convert", EXITO, None);
    assert_eq!(f.heic("foto.heic"), Err(ErrorOperacion::SinSalida));
    assert_eq!(f.archivos(), vec![("foto.heic", 5 * MB)]);
    let mut f = Falso::nuevo(&[("foto.heic", 5 * MB)]).programa("cwebp", EXITO, None);
    assert_eq!(f.heic("foto.heic"), Err(ErrorOperacion::SinSalida));
    assert_eq!(f.archivos(), vec![("foto.heic", 5 * MB)]);
}

#[test]
fn lo_que_no_es_heic_no_se_convierte() {
    let mut f = Falso::nuevo(&[("foto.jpg", 5 * MB)]);
    assert_eq!(f.heic("foto.jpg"), Err(ErrorOperacion::FormatoAjeno));
    assert_eq!(f.acciones, vec![]);
    assert_eq!(f.archivos(), vec![("foto.jpg", 5 * MB)]);
}

#[test]
fn etapas_del_heic() {
    let e = EtapaHeic::Decodificando;
    assert_eq!(accion_heic("f.heic", e), Some(Accion::Ejecutar(armar_orden_decodificar("f.heic"))));
    let e = avanzar_heic(e, Evento::Proceso(EXITO));
    assert_eq!(e, EtapaHeic::ComprobandoIntermedio);
    let e = avanzar_heic(e, Evento::Existencia(true));
    assert_eq!(e, EtapaHeic::Codificando);
    let e = avanzar_heic(e, Evento::Proceso(EXITO));
    assert_eq!(e, EtapaHeic::ComprobandoSalida);
    let e = avanzar_heic(e, Evento::Existencia(true));
    assert_eq!(e, EtapaHeic::RetirandoIntermedio);
    let e = avanzar_heic(e, Evento::Borrado);
    assert_eq!(e, EtapaHeic::RetirandoImagen);
    let e = avanzar_heic(e, Evento::Borrado);
    assert_eq!(e, EtapaHeic::Terminada { resultado: Ok(()) });
    assert_eq!(accion_heic("f.heic", e), None);
    let mal = avanzar_heic(EtapaHeic::Codificando, Evento::Proceso(FALLO));
    assert_eq!(mal, EtapaHeic::LimpiandoIntermedio { motivo: ErrorOperacion::Herramienta(Some(1)) });
    let mal = avanzar_heic(mal, Evento::Borrado);
    assert_eq!(mal, EtapaHeic::LimpiandoSalida { motivo: ErrorOperacion::Herramienta(Some(1)) });
    let mal = avanzar_heic(mal, Evento::Borrado);
    assert_eq!(mal, EtapaHeic::Terminada { resultado: Err(ErrorOperacion::Herramienta(Some(1))) });
}

#[test]
fn tarea_de_un_jpg() {
    let mut f = Falso::nuevo(&[("foto.jpg", 10 * 1024)]);
    let informe = f.tarea("foto.jpg");
    assert_eq!(informe, InformeArchivo { metadatos_limpiados: true, jpg_optimizado: true, ..en_blanco() });
    assert_eq!(
        f.acciones,
        vec![
            Accion::Ejecutar(armar_orden_metadatos("foto.jpg")),
            Accion::Ejecutar(armar_orden_jpg("foto.jpg")),
        ]
    );
}

#[test]
fn tarea_de_un_png_con_fallos() {
    let mut f = Falso::nuevo(&[("d.png", 1024)]).programa("exiftool", VENCIDO, None);
    let informe = f.tarea("d.png");
    assert_eq!(informe, InformeArchivo { png_optimizado: true, ..en_blanco() });
    assert_eq!(
        f.acciones,
        vec![
            Accion::Ejecutar(armar_orden_metadatos("d.png")),
            Accion::Ejecutar(armar_orden_png("d.png")),
        ]
    );
    let mut f = Falso::nuevo(&[("d.png", 1024)]).programa("optipng", FALLO, None);
    assert_eq!(f.tarea("d.png"), InformeArchivo { metadatos_limpiados: true, ..en_blanco() });
}

#[test]
fn heic_en_el_limite_no_se_convierte_ni_se_cuenta() {
    assert_eq!(LIMITE_WEBP, 3 * 1024 * 1024);
    for tamano in [0, 1, 3 * MB - 1, 3 * MB] {
        let mut f = Falso::nuevo(&[("foto.heic", tamano)]);
        let informe = f.tarea("foto.heic");
        assert_eq!(informe, InformeArchivo { metadatos_limpiados: true, ..en_blanco() });
        assert_eq!(f.archivos(), vec![("foto.heic", tamano)]);
        assert_eq!(
            f.acciones,
            vec![
                Accion::Ejecutar(armar_orden_metadatos("foto.heic")),
                Accion::MedirArchivo("foto.heic".to_string()),
            ]
        );
    }
}

#[test]
fn heic_sobre_el_limite_se_convierte() {
    let mut f = Falso::nuevo(&[("foto.heic", 3 * MB + 1)]);
    let informe = f.tarea("foto.heic");
    assert_eq!(
        informe,
        InformeArchivo {
            metadatos_limpiados: true,
            heic_encontrado: true,
            heic_convertido: true,
            ..en_blanco()
        }
    );
    assert_eq!(f.archivos(), vec![("foto.webp", 300)]);
}

#[test]
fn heic_encontrado_pero_no_convertido() {
    let mut f = Falso::nuevo(&[("foto.heic", 4 * MB)]).programa("cwebp", VENCIDO, Some(1));
    let informe = f.tarea("foto.heic");
    assert_eq!(
        informe,
        InformeArchivo { metadatos_limpiados: true, heic_encontrado: true, ..en_blanco() }
    );
    assert_eq!(f.archivos(), vec![("foto.heic", 4 * MB)]);
}

#[test]
fn heic_que_no_se_puede_medir() {
    let mut f = Falso::nuevo(&[]);
    let informe = f.tarea("foto.heic");
    assert_eq!(informe, InformeArchivo { metadatos_limpiados: true, ..en_blanco() });
}

#[test]
fn tarea_de_un_video() {
    let mut f = Falso::nuevo(&[("clip.mp4", 50 * MB)]);
    let informe = f.tarea("clip.mp4");
    assert_eq!(
        informe,
        InformeArchivo { video_encontrado: true, video: Some(Ok(50 * MB - 1000)), ..en_blanco() }
    );
    let mut f = Falso::nuevo(&[("clip.mp4", 50 * MB)]).programa("nice", FALLO, None);
    assert_eq!(
        f.tarea("clip.mp4"),
        InformeArchivo {
            video_encontrado: true,
            video: Some(Err(ErrorOperacion::Herramienta(Some(1)))),
            ..en_blanco()
        }
    );
}

#[test]
fn tarea_de_otro_archivo() {
    let mut f = Falso::nuevo(&[("notas.txt", 5)]);
    assert_eq!(f.tarea("notas.txt"), en_blanco());
    assert_eq!(f.acciones, vec![]);
    let estado = iniciar_tarea(&Archivo::nuevo("notas.txt"));
    assert_eq!(
        estado,
        EstadoTarea { categoria: Categoria::Otro, etapa: EtapaTarea::Terminada, informe: en_blanco() }
    );
    assert_eq!(accion_tarea("notas.txt", &estado), None);
    assert_eq!(avanzar_tarea(estado, Evento::Borrado), estado);
}

#[test]
fn corrida_completa() {
    let mut f = Falso::nuevo(&[
        ("d/foto.jpg", 10 * 1024),
        ("d/dibujo.png", 1024),
        ("d/movil.heic", 5 * MB),
        ("d/clip.mp4", 50 * MB),
    ])
    .programa("nice", EXITO, Some(20 * MB));
    let b = f.bucle(&["d/foto.jpg", "d/dibujo.png", "d/movil.heic", "d/clip.mp4"]);
    assert_eq!(b.fase(), Fase::Completa);
    assert_eq!(b.indice(), 4);
    assert_eq!(b.total(), 4);
    assert_eq!(b.archivo_en_turno(), None);
    assert_eq!(
        b.contadores(),
        Contadores {
            metadatos: 3,
            jpg: 1,
            png: 1,
            heic_total: 1,
            convertidos: 1,
            videos_total: 1,
            videos_optimizados: 1,
            videos_ahorro: 30 * MB as u128,
        }
    );
    assert_eq!(
        f.archivos(),
        vec![
            ("d/clip.mp4", 20 * MB),
            ("d/dibujo.png", 1024),
            ("d/foto.jpg", 10 * 1024),
            ("d/movil.webp", 300),
        ]
    );
    assert_eq!(f.consultas, 4);
    assert_eq!(
        b.ultimo_informe(),
        Some(InformeArchivo { video_encontrado: true, video: Some(Ok(30 * MB)), ..en_blanco() })
    );
}

#[test]
fn corrida_con_video_que_no_mejora() {
    let mut f = Falso::nuevo(&[("a.mp4", 500), ("b.mov", 5000), ("c.mp4", 2047)])
        .programa("nice", EXITO, Some(1000));
    let b = f.bucle(&["a.mp4", "b.mov", "c.mp4"]);
    assert_eq!(
        b.contadores(),
        Contadores {
            metadatos: 0,
            jpg: 0,
            png: 0,
            heic_total: 0,
            convertidos: 0,
            videos_total: 3,
            videos_optimizados: 2,
            videos_ahorro: 5047,
        }
    );
    assert_eq!(f.archivos(), vec![("a.mp4", 500), ("b.mov", 1000), ("c.mp4", 1000)]);
}

#[test]
fn corrida_sin_archivos() {
    let mut f = Falso::nuevo(&[]);
    let b = f.bucle(&[]);
    assert_eq!(b.fase(), Fase::Completa);
    assert_eq!(b.indice(), 0);
    assert_eq!(b.ultimo_informe(), None);
    assert_eq!(f.acciones, vec![]);
    assert_eq!(f.consultas, 0);
}

#[test]
fn cancelacion_antes_del_tercer_archivo() {
    let mut f = Falso::nuevo(&[("a.jpg", 100), ("b.png", 100), ("c.heic", 5 * MB), ("d.mp4", 9000)]);
    f.cancelar_tras = Some(2);
    let b = f.bucle(&["a.jpg", "b.png", "c.heic", "d.mp4"]);
    assert_eq!(b.fase(), Fase::Cancelada);
    assert_eq!(b.indice(), 2);
    assert_eq!(b.pendiente(), None);
    assert_eq!(
        b.contadores(),
        Contadores {
            metadatos: 2,
            jpg: 1,
            png: 1,
            heic_total: 0,
            convertidos: 0,
            videos_total: 0,
            videos_optimizados: 0,
            videos_ahorro: 0,
        }
    );
    assert_eq!(
        f.archivos(),
        vec![("a.jpg", 100), ("b.png", 100), ("c.heic", 5 * MB), ("d.mp4", 9000)]
    );
    assert_eq!(
        f.acciones,
        vec![
            Accion::ConsultarCancelacion,
            Accion::Ejecutar(armar_orden_metadatos("a.jpg")),
            Accion::Ejecutar(armar_orden_jpg("a.jpg")),
            Accion::ConsultarCancelacion,
            Accion::Ejecutar(armar_orden_metadatos("b.png")),
            Accion::Ejecutar(armar_orden_png("b.png")),
            Accion::ConsultarCancelacion,
        ]
    );
    let b = b.avanzar(Evento::Cancelacion(false));
    assert_eq!(b.fase(), Fase::Cancelada);
    assert_eq!(b.indice(), 2);
    assert_eq!(b.pendiente(), None);
}

#[test]
fn cancelacion_antes_del_primer_archivo() {
    let mut f = Falso::nuevo(&[("a.jpg", 100)]);
    f.cancelar_tras = Some(0);
    let b = f.bucle(&["a.jpg"]);
    assert_eq!(b.fase(), Fase::Cancelada);
    assert_eq!(b.indice(), 0);
    assert_eq!(b.contadores(), Contadores::nuevos());
    assert_eq!(f.acciones, vec![Accion::ConsultarCancelacion]);
}

#[test]
fn el_bucle_paso_a_paso() {
    let b = Bucle::nuevo(vec![Archivo::nuevo("a.jpg"), Archivo::nuevo("x.txt")]);
    assert_eq!(b.fase(), Fase::EnCurso);
    assert_eq!(b.archivo_en_turno(), Some("a.jpg"));
    assert_eq!(b.pendiente(), Some(Accion::ConsultarCancelacion));
    let b = b.avanzar(Evento::Cancelacion(false));
    assert_eq!(b.pendiente(), Some(Accion::Ejecutar(armar_orden_metadatos("a.jpg"))));
    assert_eq!(b.indice(), 0);
    let b = b.avanzar(Evento::Proceso(FALLO));
    assert_eq!(b.pendiente(), Some(Accion::Ejecutar(armar_orden_jpg("a.jpg"))));
    let b = b.avanzar(Evento::Proceso(EXITO));
    assert_eq!(b.indice(), 1);
    assert_eq!(b.ultimo_informe(), Some(InformeArchivo { jpg_optimizado: true, ..en_blanco() }));
    assert_eq!(b.archivo_en_turno(), Some("x.txt"));
    assert_eq!(b.pendiente(), Some(Accion::ConsultarCancelacion));
    let b = b.avanzar(Evento::Cancelacion(false));
    assert_eq!(b.fase(), Fase::Completa);
    assert_eq!(b.indice(), 2);
    assert_eq!(b.ultimo_informe(), Some(en_blanco()));
    assert_eq!(b.contadores().jpg, 1);
    assert_eq!(b.contadores().metadatos, 0);
}

#[test]
fn contadores_con_informes() {
    let c = Contadores::nuevos();
    assert_eq!(c.videos_ahorro, 0);
    let c = c.con_informe(&InformeArchivo {
        video_encontrado: true,
        video: Some(Ok(1023)),
        ..en_blanco()
    });
    assert_eq!((c.videos_total, c.videos_optimizados, c.videos_ahorro), (1, 1, 1023));
    let c = c.con_informe(&InformeArchivo { video_encontrado: true, video: Some(Ok(0)), ..en_blanco() });
    assert_eq!((c.videos_total, c.videos_optimizados, c.videos_ahorro), (2, 1, 1023));
    let c = c.con_informe(&InformeArchivo {
        video_encontrado: true,
        video: Some(Ok(u64::MAX)),
        ..en_blanco()
    });
    assert_eq!(
        (c.videos_total, c.videos_optimizados, c.videos_ahorro),
        (3, 2, u64::MAX as u128 + 1023)
    );
    let c = c.con_informe(&InformeArchivo {
        video_encontrado: true,
        video: Some(Err(ErrorOperacion::SinSalida)),
        ..en_blanco()
    });
    assert_eq!((c.videos_total, c.videos_optimizados), (4, 2));
    let c = c.con_informe(&InformeArchivo {
        metadatos_limpiados: true,
        heic_encontrado: true,
        heic_convertido: true,
        ..en_blanco()
    });
    assert_eq!((c.metadatos, c.jpg, c.png, c.heic_total, c.convertidos), (1, 0, 0, 1, 1));
}
