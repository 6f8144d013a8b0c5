use optimizador_medios::barrido::{contar_borrados, es_residual, seleccionar_residuales};
use optimizador_medios::clasificador::{Archivo, Categoria};
use optimizador_medios::herramientas::{
    listar_herramientas, sondear, sugerir_instalacion, Sondeo, NUMERO_HERRAMIENTAS,
};
use optimizador_medios::invocacion::{interpretar_argumentos, Invocacion, Modo};
use optimizador_medios::seleccion::{es_candidata, recolectar_archivos};
use optimizador_medios::tamano::{
    ahorro_bytes, espacio, interpretar_salida, interpretar_tamano, ErrorTamano,
};

fn textos(lista: &[&str]) -> Vec<String> {
    lista.iter().map(|t| t.to_string()).collect()
}

fn rutas_de(archivos: &[Archivo]) -> Vec<String> {
    archivos.iter().map(|a| a.ruta().to_string()).collect()
}

#[test]
fn tamano_de_la_salida_habitual() {
    assert_eq!(interpretar_tamano("123456\t/home/u/fotos\n"), Ok(123456));
    assert_eq!(interpretar_tamano("0\t.\n"), Ok(0));
    assert_eq!(interpretar_tamano("  42 resto"), Ok(42));
    assert_eq!(interpretar_tamano("\n\t 7"), Ok(7));
    assert_eq!(interpretar_tamano("+15\tx"), Ok(15));
    assert_eq!(interpretar_tamano("007"), Ok(7));
    assert_eq!(interpretar_tamano("18446744073709551615 x"), Ok(u64::MAX));
    assert_eq!(interpretar_tamano("12\u{a0}x"), Ok(12));
    assert_eq!(interpretar_tamano("12\u{3000}x"), Ok(12));
}

#[test]
fn salida_sin_tamano() {
    assert_eq!(interpretar_tamano(""), Err(ErrorTamano::SinTamano));
    assert_eq!(interpretar_tamano("   \n\t"), Err(ErrorTamano::SinTamano));
}

#[test]
fn tamano_invalido() {
    assert_eq!(interpretar_tamano("12a\tx"), Err(ErrorTamano::TamanoInvalido));
    assert_eq!(interpretar_tamano("-5\tx"), Err(ErrorTamano::TamanoInvalido));
    assert_eq!(interpretar_tamano("+\tx"), Err(ErrorTamano::TamanoInvalido));
    assert_eq!(interpretar_tamano("++5"), Err(ErrorTamano::TamanoInvalido));
    assert_eq!(interpretar_tamano("1.5K\tx"), Err(ErrorTamano::TamanoInvalido));
    assert_eq!(interpretar_tamano("18446744073709551616 x"), Err(ErrorTamano::TamanoInvalido));
    assert_eq!(interpretar_tamano("99999999999999999999999"), Err(ErrorTamano::TamanoInvalido));
    assert_eq!(interpretar_tamano("du: error"), Err(ErrorTamano::TamanoInvalido));
    assert_eq!(interpretar_tamano("１２"), Err(ErrorTamano::TamanoInvalido));
}

#[test]
fn salida_en_bytes() {
    assert_eq!(interpretar_salida(b"5242880\tfotos\n"), Ok(5242880));
    assert_eq!(interpretar_salida(b""), Err(ErrorTamano::SinTamano));
    assert_eq!(interpretar_salida(b"x\n"), Err(ErrorTamano::TamanoInvalido));
    assert_eq!(interpretar_salida(&[0x31, 0x32, 0x09, 0xff, 0xfe]), Err(ErrorTamano::NoEsTexto));
    assert_eq!(interpretar_salida(&[0xc3]), Err(ErrorTamano::NoEsTexto));
    assert_eq!(interpretar_salida("77\tni\u{f1}o\n".as_bytes()), Ok(77));
}

#[test]
fn espacios_en_blanco() {
    for c in [' ', '\t', '\n', '\r', '\u{b}', '\u{c}', '\u{85}', '\u{a0}', '\u{1680}', '\u{2000}',
        '\u{200a}', '\u{2028}', '\u{2029}', '\u{202f}', '\u{205f}', '\u{3000}']
    {
        assert!(espacio(c));
        assert!(c.is_whitespace());
    }
    for c in ['a', '0', '+', '\u{8}', '\u{e}', '\u{200b}', '\u{feff}', '\u{2060}', '\u{180e}'] {
        assert!(!espacio(c));
        assert!(!c.is_whitespace());
    }
}

#[test]
fn espacios_como_la_biblioteca_estandar() {
    let mut n: u32 = 0;
    while n <= 0x3100 {
        if let Some(c) = char::from_u32(n) {
            assert_eq!(espacio(c), c.is_whitespace());
        }
        n += 1;
    }
}

#[test]
fn ahorro_con_signo() {
    assert_eq!(ahorro_bytes(1000, 400), 600);
    assert_eq!(ahorro_bytes(400, 400), 0);
    assert_eq!(ahorro_bytes(400, 1000), -600);
    assert_eq!(ahorro_bytes(0, u64::MAX), -(u64::MAX as i128));
    assert_eq!(ahorro_bytes(u64::MAX, 0), u64::MAX as i128);
}

#[test]
fn herramientas_en_orden() {
    assert_eq!(NUMERO_HERRAMIENTAS, 6);
    assert_eq!(
        listar_herramientas(),
        textos(&["jpegoptim", "optipng", "exiftool", "cwebp", "heif-convert", "ffmpeg"])
    );
    assert_eq!(
        sugerir_instalacion(),
        "sudo apt install jpegoptim optipng libimage-exiftool-perl webp libheif-examples ffmpeg"
    );
}

#[test]
fn sondeo_paso_a_paso() {
    assert_eq!(sondear(&vec![]), Sondeo::Buscar("jpegoptim".to_string()));
    assert_eq!(sondear(&vec![true]), Sondeo::Buscar("optipng".to_string()));
    assert_eq!(sondear(&vec![true, true]), Sondeo::Buscar("exiftool".to_string()));
    assert_eq!(sondear(&vec![true; 3]), Sondeo::Buscar("cwebp".to_string()));
    assert_eq!(sondear(&vec![true; 4]), Sondeo::Buscar("heif-convert".to_string()));
    assert_eq!(sondear(&vec![true; 5]), Sondeo::Buscar("ffmpeg".to_string()));
    assert_eq!(sondear(&vec![true; 6]), Sondeo::Completo);
    assert_eq!(sondear(&vec![true; 9]), Sondeo::Completo);
}

#[test]
fn sondeo_se_detiene_en_la_primera_ausente() {
    assert_eq!(sondear(&vec![false]), Sondeo::Falta("jpegoptim".to_string()));
    assert_eq!(sondear(&vec![true, true, false]), Sondeo::Falta("exiftool".to_string()));
    assert_eq!(
        sondear(&vec![true, false, false, true, true, true]),
        Sondeo::Falta("optipng".to_string())
    );
    assert_eq!(
        sondear(&vec![true, true, true, true, true, false]),
        Sondeo::Falta("ffmpeg".to_string())
    );
    assert_eq!(sondear(&vec![true, true, true, true, true, true, false]), Sondeo::Completo);
}

#[test]
fn argumentos_de_la_linea_de_ordenes() {
    assert_eq!(
        interpretar_argumentos(&textos(&["prog"])),
        Invocacion { modo: Modo::Optimizar, carpeta: ".".to_string() }
    );
    assert_eq!(
        interpretar_argumentos(&textos(&[])),
        Invocacion { modo: Modo::Optimizar, carpeta: ".".to_string() }
    );
    assert_eq!(
        interpretar_argumentos(&textos(&["prog", "fotos"])),
        Invocacion { modo: Modo::Optimizar, carpeta: "fotos".to_string() }
    );
    assert_eq!(
        interpretar_argumentos(&textos(&["prog", "fotos", "--limpiar"])),
        Invocacion { modo: Modo::Optimizar, carpeta: "fotos".to_string() }
    );
    assert_eq!(
        interpretar_argumentos(&textos(&["prog", "--limpiar", "fotos"])),
        Invocacion { modo: Modo::SoloLimpiar, carpeta: "fotos".to_string() }
    );
    assert_eq!(
        interpretar_argumentos(&textos(&["prog", "--limpiar"])),
        Invocacion { modo: Modo::SoloLimpiar, carpeta: ".".to_string() }
    );
    assert_eq!(
        interpretar_argumentos(&textos(&["prog", "--LIMPIAR"])),
        Invocacion { modo: Modo::Optimizar, carpeta: "--LIMPIAR".to_string() }
    );
}

#[test]
fn candidatos_en_el_orden_del_listado() {
    for ruta in ["a.jpg", "a.MOV", "a.heic", "d/a.Png", "a.mp4"] {
        assert!(es_candidata(&Archivo::nuevo(ruta)));
    }
    for ruta in ["a.txt", "a", "a.webp", ""] {
        assert!(!es_candidata(&Archivo::nuevo(ruta)));
    }
    let listado =
        textos(&["z/b.png", "notas.txt", "a.MP4", "sin_extension", "c.JPEG", "d.gif", "e.heic"]);
    let elegidos = recolectar_archivos(&listado);
    assert_eq!(rutas_de(&elegidos), textos(&["z/b.png", "a.MP4", "c.JPEG", "e.heic"]));
    let categorias: Vec<Categoria> = elegidos.iter().map(|a| a.categoria()).collect();
    assert_eq!(
        categorias,
        vec![Categoria::ImagenPng, Categoria::Video, Categoria::ImagenJpg, Categoria::ImagenHeic]
    );
    assert_eq!(recolectar_archivos(&textos(&[])), vec![]);
    assert_eq!(recolectar_archivos(&textos(&["a.txt"])), vec![]);
}

#[test]
fn archivo_clasificado() {
    let a = Archivo::nuevo("fotos/IMG_1.JPG");
    assert_eq!(a.ruta(), "fotos/IMG_1.JPG");
    assert_eq!(a.categoria(), Categoria::ImagenJpg);
    let b = Archivo::nuevo("fotos/leeme");
    assert_eq!(b.ruta(), "fotos/leeme");
    assert_eq!(b.categoria(), Categoria::Otro);
    assert_eq!(Archivo::nuevo("x.mov"), Archivo::nuevo("x.mov"));
}

#[test]
fn residuales_por_sufijo() {
    for nombre in ["x.opt.jpg", "x.opt.jpeg", "x.opt.png", "x.opt.webp", "x.opt.mp4", "x.opt.mov",
        "x.tmp.jpg", "x.tmp.png", "x.tmp.webp", "x.tmp.mp4", "x.tmp.mov", "d/.opt.mp4",
        "a.b/clip.opt.mov"]
    {
        assert!(es_residual(nombre));
    }
    for nombre in ["x.jpg", "x.opt", "x.tmp.jpeg", "x.OPT.MP4", "x.opt.mp4.bak", "opt.mp4",
        "x.opt.mp4/clip.mp4", "x.tmp.heic", "", "x.opt.mp4/"]
    {
        assert!(!es_residual(nombre));
    }
}

#[test]
fn segundo_barrido_no_borra_nada() {
    let listado = textos(&["a.jpg", "a.opt.jpg", "v/clip.mp4", "v/clip.opt.mp4", "v/x.tmp.mov", "b.png"]);
    let primero = seleccionar_residuales(&listado);
    assert_eq!(primero, textos(&["a.opt.jpg", "v/clip.opt.mp4", "v/x.tmp.mov"]));
    assert_eq!(contar_borrados(&vec![true; primero.len()]), 3);
    let quedan: Vec<String> = listado.iter().filter(|r| !primero.contains(r)).cloned().collect();
    assert_eq!(quedan, textos(&["a.jpg", "v/clip.mp4", "b.png"]));
    let segundo = seleccionar_residuales(&quedan);
    assert_eq!(segundo, textos(&[]));
    assert_eq!(contar_borrados(&vec![true; segundo.len()]), 0);
}

#[test]
fn cuenta_de_borrados() {
    assert_eq!(contar_borrados(&vec![]), 0);
    assert_eq!(contar_borrados(&vec![true, false, true, true, false]), 3);
    assert_eq!(contar_borrados(&vec![false, false]), 0);
}
