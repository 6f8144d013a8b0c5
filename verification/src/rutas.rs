//! Paths as text.
//!
//! A path is read as a sequence of characters in which `/` separates the
//! components. The file name is what follows the last separator, and the
//! extension is what follows the last dot of the file name, provided that dot
//! is not the first character of the name and the name is not `..`.

use vstd::prelude::*;
use vstd::string::*;

verus! {

/// Position at which the file name starts: just after the last `/`, or at the
/// beginning when the path has no separator.
pub open spec fn inicio_nombre(ruta: Seq<char>) -> int
    decreases ruta.len(),
{
    if ruta.len() == 0 {
        0
    } else if ruta.last() == '/' {
        ruta.len() as int
    } else {
        inicio_nombre(ruta.drop_last())
    }
}

/// The last component of the path (empty when the path ends in `/`).
pub open spec fn nombre_archivo(ruta: Seq<char>) -> Seq<char> {
    ruta.subrange(inicio_nombre(ruta), ruta.len() as int)
}

/// Position of the last dot in `texto`, or `-1` when it has none.
pub open spec fn ultimo_punto(texto: Seq<char>) -> int
    decreases texto.len(),
{
    if texto.len() == 0 {
        -1
    } else if texto.last() == '.' {
        texto.len() - 1
    } else {
        ultimo_punto(texto.drop_last())
    }
}

/// Position, within the whole path, of the dot that introduces the extension.
pub open spec fn punto_extension(ruta: Seq<char>) -> Option<int> {
    let nombre = nombre_archivo(ruta);
    let k = ultimo_punto(nombre);
    if k <= 0 || nombre == seq!['.', '.'] {
        None
    } else {
        Some(inicio_nombre(ruta) + k)
    }
}

/// The extension of the path, without its dot.
pub open spec fn extension(ruta: Seq<char>) -> Option<Seq<char>> {
    match punto_extension(ruta) {
        Some(p) => Some(ruta.subrange(p + 1, ruta.len() as int)),
        None => None,
    }
}

/// The path with its extension replaced by `ext`; a path without an
/// extension gets `.ext` appended to its file name. A path without a file
/// name (empty, ending in `/`, or ending in `..`) stays as it is.
pub open spec fn con_extension(ruta: Seq<char>, ext: Seq<char>) -> Seq<char> {
    let nombre = nombre_archivo(ruta);
    if nombre.len() == 0 || nombre == seq!['.', '.'] {
        ruta
    } else {
        let tronco = match punto_extension(ruta) {
            Some(p) => ruta.subrange(0, p),
            None => ruta,
        };
        tronco + seq!['.'] + ext
    }
}

/// ASCII lower-case form of one character.
pub open spec fn minuscula(c: char) -> char {
    if 'A' <= c && c <= 'Z' {
        ((c as u8) + 32) as char
    } else {
        c
    }
}

/// ASCII lower-case form of a text, character by character.
pub open spec fn minusculas(texto: Seq<char>) -> Seq<char> {
    Seq::new(texto.len(), |i: int| minuscula(texto[i]))
}

/// Whether `texto` ends with `sufijo`.
pub open spec fn termina_en(texto: Seq<char>, sufijo: Seq<char>) -> bool {
    sufijo.len() <= texto.len() && texto.subrange(texto.len() - sufijo.len(), texto.len() as int)
        == sufijo
}

/// `inicio_nombre` is the one position that follows a separator (or starts
/// the path) and has no separator after it.
pub proof fn lema_inicio_nombre(ruta: Seq<char>)
    ensures
        0 <= inicio_nombre(ruta) <= ruta.len(),
        inicio_nombre(ruta) > 0 ==> ruta[inicio_nombre(ruta) - 1] == '/',
        forall|j: int| inicio_nombre(ruta) <= j < ruta.len() ==> ruta[j] != '/',
    decreases ruta.len(),
{
    if ruta.len() > 0 && ruta.last() != '/' {
        let resto = ruta.drop_last();
        lema_inicio_nombre(resto);
        assert forall|j: int| inicio_nombre(ruta) <= j < ruta.len() implies ruta[j] != '/' by {
            if j < resto.len() {
                assert(resto[j] == ruta[j]);
            }
        }
    }
}

/// `ultimo_punto` is the position of a dot with no dot after it, or `-1`
/// when the text holds no dot at all.
pub proof fn lema_ultimo_punto(texto: Seq<char>)
    ensures
        -1 <= ultimo_punto(texto) < texto.len(),
        ultimo_punto(texto) >= 0 ==> texto[ultimo_punto(texto)] == '.',
        forall|j: int| ultimo_punto(texto) < j < texto.len() ==> texto[j] != '.',
    decreases texto.len(),
{
    if texto.len() > 0 && texto.last() != '.' {
        let resto = texto.drop_last();
        lema_ultimo_punto(resto);
        assert forall|j: int| ultimo_punto(texto) < j < texto.len() implies texto[j] != '.' by {
            if j < resto.len() {
                assert(resto[j] == texto[j]);
            }
        }
    }
}

/// The file name holds no separator.
pub proof fn lema_nombre_sin_separador(ruta: Seq<char>)
    ensures
        forall|j: int| 0 <= j < nombre_archivo(ruta).len() ==> nombre_archivo(ruta)[j] != '/',
{
    lema_inicio_nombre(ruta);
}

/// Where the extension's dot stands, and that the extension holds neither a
/// dot nor a separator.
pub proof fn lema_punto_extension(ruta: Seq<char>)
    ensures
        punto_extension(ruta) matches Some(p) ==> {
            &&& inicio_nombre(ruta) < p < ruta.len()
            &&& ruta[p] == '.'
            &&& forall|j: int| p < j < ruta.len() ==> ruta[j] != '.' && ruta[j] != '/'
        },
{
    lema_inicio_nombre(ruta);
    lema_ultimo_punto(nombre_archivo(ruta));
    if let Some(p) = punto_extension(ruta) {
        let k = inicio_nombre(ruta);
        let nombre = nombre_archivo(ruta);
        assert forall|j: int| p < j < ruta.len() implies ruta[j] != '.' && ruta[j] != '/' by {
            assert(nombre[j - k] == ruta[j]);
        }
    }
}

/// A path that keeps the first `n` characters of `ruta`, file name's start
/// included, and holds no separator after them, has its file name start where
/// that of `ruta` starts.
pub proof fn lema_nombre_de_derivada(ruta: Seq<char>, derivada: Seq<char>, n: int)
    requires
        inicio_nombre(ruta) <= n <= ruta.len(),
        n <= derivada.len(),
        derivada.subrange(0, n) == ruta.subrange(0, n),
        forall|j: int| n <= j < derivada.len() ==> derivada[j] != '/',
    ensures
        inicio_nombre(derivada) == inicio_nombre(ruta),
    decreases derivada.len(),
{
    lema_inicio_nombre(ruta);
    if derivada.len() == n {
        assert(derivada =~= derivada.subrange(0, n));
        if n < ruta.len() {
            lema_prefijo_sin_separador(ruta, n);
        } else {
            assert(ruta =~= ruta.subrange(0, n));
        }
    } else {
        let resto = derivada.drop_last();
        assert(resto.subrange(0, n) =~= derivada.subrange(0, n));
        lema_nombre_de_derivada(ruta, resto, n);
    }
}

/// Cutting a path after the start of its file name does not move that start.
pub proof fn lema_prefijo_sin_separador(ruta: Seq<char>, n: int)
    requires
        inicio_nombre(ruta) <= n <= ruta.len(),
    ensures
        inicio_nombre(ruta.subrange(0, n)) == inicio_nombre(ruta),
    decreases ruta.len() - n,
{
    lema_inicio_nombre(ruta);
    if n == ruta.len() {
        assert(ruta.subrange(0, n) =~= ruta);
    } else {
        lema_prefijo_sin_separador(ruta, n + 1);
        assert(ruta.subrange(0, n + 1).drop_last() =~= ruta.subrange(0, n));
    }
}

/// The characters of a text, in order.
pub fn caracteres(texto: &str) -> (v: Vec<char>)
    ensures
        v@ == texto@,
{
    let mut v: Vec<char> = Vec::new();
    for c in it: texto.chars()
        invariant
            v@ == it.seq().take(it.index() as int),
    {
        v.push(c);
    }
    v
}

/// ASCII lower-case form of one character.
pub fn a_minuscula(c: char) -> (r: char)
    ensures
        r == minuscula(c),
{
    if 'A' <= c && c <= 'Z' {
        ((c as u8) + 32) as char
    } else {
        c
    }
}

/// Finds where the file name starts.
pub fn buscar_inicio_nombre(ruta: &Vec<char>) -> (k: usize)
    ensures
        k == inicio_nombre(ruta@),
{
    let mut i: usize = ruta.len();
    assert(ruta@.take(i as int) == ruta@);
    while i > 0
        invariant
            i <= ruta.len(),
            inicio_nombre(ruta@) == inicio_nombre(ruta@.take(i as int)),
        decreases i,
    {
        if ruta[i - 1] == '/' {
            return i;
        }
        assert(ruta@.take(i as int).drop_last() == ruta@.take(i - 1));
        i -= 1;
    }
    0
}

/// Finds the dot that introduces the extension, if the path has one.
pub fn buscar_punto_extension(ruta: &Vec<char>) -> (p: Option<usize>)
    ensures
        match p {
            Some(i) => punto_extension(ruta@) == Some(i as int),
            None => punto_extension(ruta@) is None,
        },
{
    let k: usize = buscar_inicio_nombre(ruta);
    let n: usize = ruta.len();
    proof {
        lema_inicio_nombre(ruta@);
    }
    let ghost nombre = nombre_archivo(ruta@);
    let mut i: usize = n;
    assert(nombre.take(i - k) == nombre);
    while i > k
        invariant
            k <= i <= n,
            n == ruta.len(),
            k == inicio_nombre(ruta@),
            nombre == nombre_archivo(ruta@),
            ultimo_punto(nombre) == ultimo_punto(nombre.take(i - k)),
        decreases i,
    {
        if ruta[i - 1] == '.' {
            if i - 1 == k {
                return None;
            }
            if n - k == 2 && ruta[k] == '.' {
                assert(nombre == seq!['.', '.']);
                return None;
            }
            assert(nombre != seq!['.', '.']);
            return Some(i - 1);
        }
        assert(nombre.take(i - k).drop_last() == nombre.take(i - k - 1));
        i -= 1;
    }
    None
}

/// Whether two texts hold the same characters.
pub fn mismo_texto(a: &Vec<char>, b: &Vec<char>) -> (r: bool)
    ensures
        r == (a@ == b@),
{
    if a.len() != b.len() {
        return false;
    }
    let mut i: usize = 0;
    while i < a.len()
        invariant
            i <= a.len(),
            a.len() == b.len(),
            forall|j: int| 0 <= j < i ==> a@[j] == b@[j],
        decreases a.len() - i,
    {
        if a[i] != b[i] {
            return false;
        }
        i += 1;
    }
    assert(a@ =~= b@);
    true
}

/// Whether `texto` ends with `sufijo`.
pub fn termina_con(texto: &Vec<char>, sufijo: &Vec<char>) -> (r: bool)
    ensures
        r == termina_en(texto@, sufijo@),
{
    if sufijo.len() > texto.len() {
        return false;
    }
    let d: usize = texto.len() - sufijo.len();
    let ghost cola = texto@.subrange(d as int, texto.len() as int);
    let mut i: usize = 0;
    while i < sufijo.len()
        invariant
            i <= sufijo.len(),
            d + sufijo.len() == texto.len(),
            cola == texto@.subrange(d as int, texto.len() as int),
            forall|j: int| 0 <= j < i ==> cola[j] == sufijo@[j],
        decreases sufijo.len() - i,
    {
        if texto[d + i] != sufijo[i] {
            return false;
        }
        i += 1;
    }
    assert(cola =~= sufijo@);
    true
}

/// The file name of a path.
pub fn nombre_de(ruta: &Vec<char>) -> (nombre: Vec<char>)
    ensures
        nombre@ == nombre_archivo(ruta@),
{
    let k: usize = buscar_inicio_nombre(ruta);
    proof {
        lema_inicio_nombre(ruta@);
    }
    let mut nombre: Vec<char> = Vec::new();
    let mut i: usize = k;
    while i < ruta.len()
        invariant
            k <= i <= ruta.len(),
            nombre@ == ruta@.subrange(k as int, i as int),
        decreases ruta.len() - i,
    {
        nombre.push(ruta[i]);
        i += 1;
    }
    nombre
}

/// The extension of a path in ASCII lower case, if the path has one.
pub fn extension_minuscula(ruta: &Vec<char>) -> (e: Option<Vec<char>>)
    ensures
        match e {
            Some(v) => extension(ruta@) matches Some(x) && v@ == minusculas(x),
            None => extension(ruta@) is None,
        },
{
    match buscar_punto_extension(ruta) {
        None => None,
        Some(p) => {
            proof {
                lema_punto_extension(ruta@);
            }
            let ghost x = ruta@.subrange(p + 1, ruta.len() as int);
            let mut v: Vec<char> = Vec::new();
            let mut i: usize = p + 1;
            while i < ruta.len()
                invariant
                    p < i <= ruta.len(),
                    x == ruta@.subrange(p + 1, ruta.len() as int),
                    v.len() == i - p - 1,
                    forall|j: int| 0 <= j < v.len() ==> v@[j] == minuscula(x[j]),
                decreases ruta.len() - i,
            {
                v.push(a_minuscula(ruta[i]));
                i += 1;
            }
            Some(v)
        },
    }
}

/// The path with its extension replaced by `ext`.
pub fn reemplazar_extension(ruta: &str, ext: &str) -> (r: String)
    ensures
        r@ == con_extension(ruta@, ext@),
{
    let c = caracteres(ruta);
    let n: usize = c.len();
    let k: usize = buscar_inicio_nombre(&c);
    proof {
        lema_inicio_nombre(c@);
        reveal_strlit(".");
    }
    if k == n {
        return String::from_str(ruta);
    }
    if n - k == 2 && c[k] == '.' && c[k + 1] == '.' {
        assert(nombre_archivo(c@) =~= seq!['.', '.']);
        return String::from_str(ruta);
    }
    assert(nombre_archivo(c@) != seq!['.', '.']);
    let fin: usize = match buscar_punto_extension(&c) {
        Some(p) => p,
        None => n,
    };
    proof {
        lema_punto_extension(c@);
    }
    let tronco = ruta.substring_char(0, fin);
    assert(tronco@ == match punto_extension(ruta@) {
        Some(p) => ruta@.subrange(0, p),
        None => ruta@,
    });
    let mut r = String::from_str(tronco);
    r.append(".");
    r.append(ext);
    r
}

} // verus!
