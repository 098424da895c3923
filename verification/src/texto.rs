//! Character classes and small string helpers used by the validators.

use vstd::prelude::*;

verus! {

/// `c` is an ASCII decimal digit, `'0'..='9'`.
pub open spec fn es_digito_ascii(c: char) -> bool {
    '0' <= c && c <= '9'
}

/// `c` is an ASCII upper-case letter, `'A'..='Z'`.
pub open spec fn es_mayuscula_ascii(c: char) -> bool {
    'A' <= c && c <= 'Z'
}

/// `c` is an ASCII lower-case letter, `'a'..='z'`.
pub open spec fn es_minuscula_ascii(c: char) -> bool {
    'a' <= c && c <= 'z'
}

/// `c` is an ASCII letter or digit.
pub open spec fn es_alfanumerico_ascii(c: char) -> bool {
    es_digito_ascii(c) || es_mayuscula_ascii(c) || es_minuscula_ascii(c)
}

/// `c` has the Unicode `White_Space` property: the tab, line feed, vertical tab,
/// form feed and carriage return controls, space, next line, no-break space,
/// ogham space mark, the spaces from en quad to hair space, line and paragraph
/// separators, narrow no-break space, medium mathematical space and ideographic
/// space.
pub open spec fn es_espacio_blanco(c: char) -> bool {
    let n = c as u32;
    ||| 0x09 <= n && n <= 0x0D
    ||| n == 0x20
    ||| n == 0x85
    ||| n == 0xA0
    ||| n == 0x1680
    ||| 0x2000 <= n && n <= 0x200A
    ||| n == 0x2028
    ||| n == 0x2029
    ||| n == 0x202F
    ||| n == 0x205F
    ||| n == 0x3000
}

/// Every character of `s` is white space: what is left of `s` after trimming is empty.
pub open spec fn solo_espacios(s: Seq<char>) -> bool {
    forall|i: int| 0 <= i < s.len() ==> es_espacio_blanco(#[trigger] s[i])
}

/// The character of the decimal digit `d`.
pub open spec fn digito(d: int) -> char {
    (48 + d) as char
}

/// The decimal digits of `n`, without leading zeros.
pub open spec fn decimal(n: nat) -> Seq<char>
    decreases n,
{
    if n < 10 {
        seq![digito(n as int)]
    } else {
        decimal(n / 10).push(digito((n % 10) as int))
    }
}

/// `c` zeros.
pub open spec fn ceros(c: nat) -> Seq<char> {
    Seq::new(c, |i: int| '0')
}

/// The decimal digits of `n`, padded with zeros on the left to `ancho` characters.
pub open spec fn con_ceros(n: nat, ancho: nat) -> Seq<char> {
    let d = decimal(n);
    if d.len() < ancho {
        ceros((ancho - d.len()) as nat) + d
    } else {
        d
    }
}

/// The one-character string of the digit `d`.
fn texto_digito(d: u128) -> (r: &'static str)
    requires
        d < 10,
    ensures
        r@ == seq![digito(d as int)],
{
    proof {
        reveal_strlit("0");
        reveal_strlit("1");
        reveal_strlit("2");
        reveal_strlit("3");
        reveal_strlit("4");
        reveal_strlit("5");
        reveal_strlit("6");
        reveal_strlit("7");
        reveal_strlit("8");
        reveal_strlit("9");
    }
    if d == 0 {
        "0"
    } else if d == 1 {
        "1"
    } else if d == 2 {
        "2"
    } else if d == 3 {
        "3"
    } else if d == 4 {
        "4"
    } else if d == 5 {
        "5"
    } else if d == 6 {
        "6"
    } else if d == 7 {
        "7"
    } else if d == 8 {
        "8"
    } else {
        "9"
    }
}

/// The decimal digits of `n`, as `n.to_string()` prints them.
pub fn texto_natural(n: u128) -> (r: String)
    ensures
        r@ == decimal(n as nat),
    decreases n,
{
    if n < 10 {
        String::from_str(texto_digito(n))
    } else {
        let mut s = texto_natural(n / 10);
        s.append(texto_digito(n % 10));
        s
    }
}

/// An integer with its sign, as `to_string` prints it.
pub open spec fn entero_decimal(n: int) -> Seq<char> {
    if n < 0 {
        seq!['-'] + decimal((-n) as nat)
    } else {
        decimal(n as nat)
    }
}

/// `n` as `n.to_string()` prints it.
pub fn texto_entero(n: i32) -> (r: String)
    ensures
        r@ == entero_decimal(n as int),
{
    if n < 0 {
        let m: i64 = n as i64;
        let mut s = String::from_str("-");
        proof {
            reveal_strlit("-");
        }
        let cifras = texto_natural((-m) as u128);
        s.append(cifras.as_str());
        s
    } else {
        texto_natural(n as u128)
    }
}

pub fn digito_ascii(c: char) -> (r: bool)
    ensures
        r == es_digito_ascii(c),
{
    '0' <= c && c <= '9'
}

pub fn mayuscula_ascii(c: char) -> (r: bool)
    ensures
        r == es_mayuscula_ascii(c),
{
    'A' <= c && c <= 'Z'
}

pub fn minuscula_ascii(c: char) -> (r: bool)
    ensures
        r == es_minuscula_ascii(c),
{
    'a' <= c && c <= 'z'
}

pub fn alfanumerico_ascii(c: char) -> (r: bool)
    ensures
        r == es_alfanumerico_ascii(c),
{
    digito_ascii(c) || mayuscula_ascii(c) || minuscula_ascii(c)
}

pub fn espacio_blanco(c: char) -> (r: bool)
    ensures
        r == es_espacio_blanco(c),
{
    let n = c as u32;
    (0x09 <= n && n <= 0x0D) || n == 0x20 || n == 0x85 || n == 0xA0 || n == 0x1680
        || (0x2000 <= n && n <= 0x200A) || n == 0x2028 || n == 0x2029 || n == 0x202F
        || n == 0x205F || n == 0x3000
}

/// Copies the characters of a string slice into a vector.
pub fn caracteres(s: &str) -> (v: Vec<char>)
    ensures
        v@ == s@,
{
    let mut v: Vec<char> = Vec::new();
    for c in it: s.chars()
        invariant
            v@ == it.seq().take(it.index()),
            it.seq() == s@,
    {
        v.push(c);
    }
    v
}

/// Whether `s` holds nothing but white space, that is whether `s.trim()` is empty.
pub fn vacio_tras_recortar(s: &str) -> (r: bool)
    ensures
        r == solo_espacios(s@),
{
    let v = caracteres(s);
    let mut i: usize = 0;
    while i < v.len()
        invariant
            i <= v.len(),
            v@ == s@,
            forall|j: int| 0 <= j < i ==> es_espacio_blanco(#[trigger] v@[j]),
        decreases v.len() - i,
    {
        if !espacio_blanco(v[i]) {
            return false;
        }
        i = i + 1;
    }
    true
}

/// Whether the two character sequences are equal.
pub fn mismos_caracteres(a: &Vec<char>, b: &Vec<char>) -> (r: bool)
    ensures
        r == (a@ == b@),
{
    if a.len() != b.len() {
        return false;
    }
    let mut i: usize = 0;
    while i < a.len()
        invariant
            i <= a.len(),
            a.len() == b.len(),
            forall|j: int| 0 <= j < i ==> a@[j] == b@[j],
        decreases a.len() - i,
    {
        if a[i] != b[i] {
            return false;
        }
        i = i + 1;
    }
    assert(a@ =~= b@);
    true
}

/// Whether two strings hold the same characters.
pub fn texto_igual(a: &str, b: &str) -> (r: bool)
    ensures
        r == (a@ == b@),
{
    let va = caracteres(a);
    let vb = caracteres(b);
    mismos_caracteres(&va, &vb)
}

} // verus!
