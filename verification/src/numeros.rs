//! Natural numbers as decimal text, in both directions.

use vstd::prelude::*;
use vstd::string::*;

verus! {

/// Whether `c` is one of the ten ASCII digits.
pub open spec fn es_digito(c: char) -> bool {
    '0' <= c && c <= '9'
}

/// The value of an ASCII digit.
pub open spec fn valor_digito(c: char) -> nat {
    (c as u32 - 48) as nat
}

/// The ASCII digit that stands for `d`, for `d` below ten.
pub open spec fn caracter_digito(d: nat) -> char {
    ((d + 48) as u8) as char
}

/// Whether the text is made of ASCII digits only.
pub open spec fn solo_digitos(texto: Seq<char>) -> bool {
    forall|i: int| 0 <= i < texto.len() ==> es_digito(#[trigger] texto[i])
}

/// The number that a text of digits writes in base ten; zero for no digits.
pub open spec fn valor_decimal(texto: Seq<char>) -> nat
    decreases texto.len(),
{
    if texto.len() == 0 {
        0
    } else {
        valor_decimal(texto.drop_last()) * 10 + valor_digito(texto.last())
    }
}

/// The shortest decimal text of `n`: no sign and no leading zero.
pub open spec fn texto_decimal(n: nat) -> Seq<char>
    decreases n,
{
    if n < 10 {
        seq![caracter_digito(n)]
    } else {
        texto_decimal(n / 10).push(caracter_digito(n % 10))
    }
}

/// What a text means as an unsigned 64-bit number: an optional `+`, then at
/// least one digit, and a value that fits.
pub open spec fn numero_u64(texto: Seq<char>) -> Option<u64> {
    let cifras = if texto.len() > 0 && texto[0] == '+' {
        texto.subrange(1, texto.len() as int)
    } else {
        texto
    };
    if cifras.len() > 0 && solo_digitos(cifras) && valor_decimal(cifras) <= u64::MAX {
        Some(valor_decimal(cifras) as u64)
    } else {
        None
    }
}

/// A longer text of digits writes a number at least as large as any of its
/// beginnings.
pub proof fn lema_valor_creciente(texto: Seq<char>, k: int)
    requires
        0 <= k <= texto.len(),
    ensures
        valor_decimal(texto.take(k)) <= valor_decimal(texto),
    decreases texto.len() - k,
{
    if k == texto.len() {
        assert(texto.take(k) == texto);
    } else {
        lema_valor_creciente(texto, k + 1);
        assert(texto.take(k + 1).drop_last() == texto.take(k));
    }
}

/// The decimal text of a number is made of digits and writes that number.
pub proof fn lema_texto_decimal(n: nat)
    ensures
        texto_decimal(n).len() > 0,
        solo_digitos(texto_decimal(n)),
        valor_decimal(texto_decimal(n)) == n,
    decreases n,
{
    if n < 10 {
        let t = texto_decimal(n);
        assert(t.drop_last().len() == 0);
        assert(valor_decimal(t.drop_last()) == 0);
    } else {
        lema_texto_decimal(n / 10);
        let t = texto_decimal(n);
        let previo = texto_decimal(n / 10);
        assert(t.drop_last() == previo);
        assert(t.last() == caracter_digito(n % 10));
        assert forall|i: int| 0 <= i < t.len() implies es_digito(#[trigger] t[i]) by {
            if i < previo.len() {
                assert(t[i] == previo[i]);
            }
        }
    }
}

/// Reading back the decimal text of a 64-bit number gives that number.
pub proof fn lema_ida_y_vuelta(n: u64)
    ensures
        numero_u64(texto_decimal(n as nat)) == Some(n),
{
    lema_texto_decimal(n as nat);
    let t = texto_decimal(n as nat);
    assert(es_digito(t[0]));
}

/// The one-character text of a digit.
fn texto_digito(d: u8) -> (r: &'static str)
    requires
        d < 10,
    ensures
        r@ == seq![caracter_digito(d as nat)],
{
    proof {
        reveal_strlit("0");
        reveal_strlit("1");
        reveal_strlit("2");
        reveal_strlit("3");
        reveal_strlit("4");
        reveal_strlit("5");
        reveal_strlit("6");
        reveal_strlit("7");
        reveal_strlit("8");
        reveal_strlit("9");
    }
    let r = if d == 0 {
        "0"
    } else if d == 1 {
        "1"
    } else if d == 2 {
        "2"
    } else if d == 3 {
        "3"
    } else if d == 4 {
        "4"
    } else if d == 5 {
        "5"
    } else if d == 6 {
        "6"
    } else if d == 7 {
        "7"
    } else if d == 8 {
        "8"
    } else {
        "9"
    };
    assert(r@ =~= seq![caracter_digito(d as nat)]);
    r
}

/// Writes `n` in base ten.
pub fn decimal(n: u64) -> (r: String)
    ensures
        r@ == texto_decimal(n as nat),
    decreases n,
{
    if n < 10 {
        String::from_str(texto_digito(n as u8))
    } else {
        let mut r = decimal(n / 10);
        r.append(texto_digito((n % 10) as u8));
        assert(r@ =~= texto_decimal(n as nat));
        r
    }
}

/// Reads the characters of `texto` from `desde` up to `hasta` as an unsigned
/// 64-bit number.
pub(crate) fn leer_numero(texto: &Vec<char>, desde: usize, hasta: usize) -> (r: Option<u64>)
    requires
        desde <= hasta <= texto.len(),
    ensures
        r == numero_u64(texto@.subrange(desde as int, hasta as int)),
{
    let ghost todo = texto@.subrange(desde as int, hasta as int);
    let inicio: usize = if desde < hasta && texto[desde] == '+' {
        desde + 1
    } else {
        desde
    };
    let ghost cifras = texto@.subrange(inicio as int, hasta as int);
    assert(cifras == if todo.len() > 0 && todo[0] == '+' {
        todo.subrange(1, todo.len() as int)
    } else {
        todo
    });
    if inicio == hasta {
        return None;
    }
    let mut valor: u64 = 0;
    let mut i: usize = inicio;
    assert(cifras.take(0).len() == 0);
    while i < hasta
        invariant
            desde <= inicio <= i <= hasta <= texto.len(),
            inicio < hasta,
            todo == texto@.subrange(desde as int, hasta as int),
            cifras == texto@.subrange(inicio as int, hasta as int),
            cifras == if todo.len() > 0 && todo[0] == '+' {
                todo.subrange(1, todo.len() as int)
            } else {
                todo
            },
            solo_digitos(cifras.take(i - inicio)),
            valor == valor_decimal(cifras.take(i - inicio)),
        decreases hasta - i,
    {
        let c: char = texto[i];
        let ghost previo = cifras.take(i - inicio);
        let ghost actual = cifras.take(i - inicio + 1);
        assert(actual.drop_last() == previo);
        assert(actual.last() == c);
        if !('0' <= c && c <= '9') {
            assert(!es_digito(cifras[i - inicio]));
            return None;
        }
        let d: u64 = (c as u32 - 48) as u64;
        assert(d == valor_digito(c));
        proof {
            lema_valor_creciente(cifras, i - inicio + 1);
            assert(valor_decimal(actual) == valor * 10 + d);
        }
        let decena = match valor.checked_mul(10) {
            Some(x) => x,
            None => {
                return None;
            },
        };
        let suma = match decena.checked_add(d) {
            Some(x) => x,
            None => {
                return None;
            },
        };
        assert forall|j: int| 0 <= j < actual.len() implies es_digito(#[trigger] actual[j]) by {
            if j < previo.len() {
                assert(actual[j] == previo[j]);
            }
        }
        valor = suma;
        i += 1;
    }
    assert(cifras.take(hasta - inicio) == cifras);
    Some(valor)
}

} // verus!
