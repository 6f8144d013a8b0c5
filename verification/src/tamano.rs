//! The size of the folder, as the disk-usage tool reports it.
//!
//! The tool prints the size in bytes, then white space, then the path. The
//! size is the first field of the output: the characters from the first one
//! that is not white space up to the next white space or the end.

use crate::numeros::{leer_numero, numero_u64};
use crate::rutas::caracteres;
use vstd::prelude::*;
use vstd::utf8::{decode_utf8, valid_utf8};

verus! {

/// Why the output of the disk-usage tool gave no size.
#[derive(Clone, Copy, Debug, PartialEq, Eq, Structural)]
pub enum ErrorTamano {
    /// The output is not UTF-8 text.
    NoEsTexto,
    /// The output holds white space only.
    SinTamano,
    /// The first field is not a number that fits in 64 bits.
    TamanoInvalido,
}

/// Whether `c` is white space.
pub open spec fn es_espacio(c: char) -> bool {
    let n = c as u32;
    ||| 0x09 <= n <= 0x0D
    ||| n == 0x20
    ||| n == 0x85
    ||| n == 0xA0
    ||| n == 0x1680
    ||| 0x2000 <= n <= 0x200A
    ||| n == 0x2028
    ||| n == 0x2029
    ||| n == 0x202F
    ||| n == 0x205F
    ||| n == 0x3000
}

/// The first position from `desde` on that holds no white space; the length
/// of the text when there is none.
pub open spec fn salta_espacios(texto: Seq<char>, desde: int) -> int
    decreases texto.len() - desde,
{
    if desde < 0 || desde >= texto.len() {
        texto.len() as int
    } else if !es_espacio(texto[desde]) {
        desde
    } else {
        salta_espacios(texto, desde + 1)
    }
}

/// The first position from `desde` on that holds white space; the length of
/// the text when there is none.
pub open spec fn salta_campo(texto: Seq<char>, desde: int) -> int
    decreases texto.len() - desde,
{
    if desde < 0 || desde >= texto.len() {
        texto.len() as int
    } else if es_espacio(texto[desde]) {
        desde
    } else {
        salta_campo(texto, desde + 1)
    }
}

/// The first field of the text; none when the text holds white space only.
pub open spec fn primer_campo(texto: Seq<char>) -> Option<Seq<char>> {
    let inicio = salta_espacios(texto, 0);
    if inicio >= texto.len() {
        None
    } else {
        Some(texto.subrange(inicio, salta_campo(texto, inicio)))
    }
}

/// The size that the text reports.
pub open spec fn tamano_informado(texto: Seq<char>) -> Result<u64, ErrorTamano> {
    match primer_campo(texto) {
        None => Err(ErrorTamano::SinTamano),
        Some(campo) => match numero_u64(campo) {
            Some(n) => Ok(n),
            None => Err(ErrorTamano::TamanoInvalido),
        },
    }
}

/// The size that the bytes report.
pub open spec fn tamano_informado_en_bytes(salida: Seq<u8>) -> Result<u64, ErrorTamano> {
    if valid_utf8(salida) {
        tamano_informado(decode_utf8(salida))
    } else {
        Err(ErrorTamano::NoEsTexto)
    }
}

/// The first field starts and ends within the text, holds no white space,
/// has only white space before it, and ends at white space or at the end.
pub proof fn lema_primer_campo(texto: Seq<char>)
    ensures
        ({
            let inicio = salta_espacios(texto, 0);
            let fin = salta_campo(texto, inicio);
            &&& 0 <= inicio <= fin <= texto.len()
            &&& forall|j: int| 0 <= j < inicio ==> es_espacio(#[trigger] texto[j])
            &&& forall|j: int| inicio <= j < fin ==> !es_espacio(#[trigger] texto[j])
            &&& fin < texto.len() ==> es_espacio(texto[fin])
            &&& inicio < texto.len() ==> inicio < fin
        }),
{
    lema_salta_espacios(texto, 0);
    lema_salta_campo(texto, salta_espacios(texto, 0));
}

/// What `salta_espacios` finds.
pub proof fn lema_salta_espacios(texto: Seq<char>, desde: int)
    requires
        0 <= desde <= texto.len(),
    ensures
        desde <= salta_espacios(texto, desde) <= texto.len(),
        forall|j: int|
            desde <= j < salta_espacios(texto, desde) ==> es_espacio(#[trigger] texto[j]),
        salta_espacios(texto, desde) < texto.len() ==> !es_espacio(
            texto[salta_espacios(texto, desde)],
        ),
    decreases texto.len() - desde,
{
    if desde < texto.len() && es_espacio(texto[desde]) {
        lema_salta_espacios(texto, desde + 1);
    }
}

/// What `salta_campo` finds.
pub proof fn lema_salta_campo(texto: Seq<char>, desde: int)
    requires
        0 <= desde <= texto.len(),
    ensures
        desde <= salta_campo(texto, desde) <= texto.len(),
        forall|j: int| desde <= j < salta_campo(texto, desde) ==> !es_espacio(#[trigger] texto[j]),
        salta_campo(texto, desde) < texto.len() ==> es_espacio(texto[salta_campo(texto, desde)]),
    decreases texto.len() - desde,
{
    if desde < texto.len() && !es_espacio(texto[desde]) {
        lema_salta_campo(texto, desde + 1);
    }
}

/// Whether `c` is white space.
pub fn espacio(c: char) -> (r: bool)
    ensures
        r == es_espacio(c),
{
    let n: u32 = c as u32;
    (0x09 <= n && n <= 0x0D) || n == 0x20 || n == 0x85 || n == 0xA0 || n == 0x1680 || (0x2000 <= n
        && n <= 0x200A) || n == 0x2028 || n == 0x2029 || n == 0x202F || n == 0x205F || n == 0x3000
}

/// Reads the size that the text reports.
pub fn interpretar_tamano(salida: &str) -> (r: Result<u64, ErrorTamano>)
    ensures
        r == tamano_informado(salida@),
{
    let texto = caracteres(salida);
    let n: usize = texto.len();
    let mut inicio: usize = 0;
    while inicio < n && espacio(texto[inicio])
        invariant
            inicio <= n,
            n == texto.len(),
            salta_espacios(texto@, 0) == salta_espacios(texto@, inicio as int),
        decreases n - inicio,
    {
        inicio += 1;
    }
    if inicio == n {
        return Err(ErrorTamano::SinTamano);
    }
    let mut fin: usize = inicio;
    while fin < n && !espacio(texto[fin])
        invariant
            inicio <= fin <= n,
            n == texto.len(),
            salta_campo(texto@, inicio as int) == salta_campo(texto@, fin as int),
        decreases n - fin,
    {
        fin += 1;
    }
    match leer_numero(&texto, inicio, fin) {
        Some(valor) => Ok(valor),
        None => Err(ErrorTamano::TamanoInvalido),
    }
}

/// `core::str::from_utf8` of the standard library: the bytes as text when
/// they are valid UTF-8, and nothing when they are not. The text, when there
/// is one, is the decoding of the bytes.
#[verifier::external_body]
fn como_texto(bytes: &[u8]) -> (r: Option<&str>)
    ensures
        r is Some <==> valid_utf8(bytes@),
        r matches Some(texto) ==> texto@ == decode_utf8(bytes@),
{
    core::str::from_utf8(bytes).ok()
}

/// Reads the size that the output of the disk-usage tool reports.
pub fn interpretar_salida(salida: &[u8]) -> (r: Result<u64, ErrorTamano>)
    ensures
        r == tamano_informado_en_bytes(salida@),
{
    match como_texto(salida) {
        Some(texto) => interpretar_tamano(texto),
        None => Err(ErrorTamano::NoEsTexto),
    }
}

/// The bytes that a run saved: the size before less the size after. It is
/// negative when the folder has grown.
pub fn ahorro_bytes(antes: u64, despues: u64) -> (r: i128)
    ensures
        r == antes - despues,
{
    antes as i128 - despues as i128
}

} // verus!
