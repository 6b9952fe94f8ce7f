use vstd::prelude::*;
use crate::texto::{recortado, recortar};

verus! {

/// Whether `c` is one of the ten decimal digits.
pub open spec fn es_cifra(c: char) -> bool {
    0x30 <= c as u32 <= 0x39
}

/// The digit that stands for `d`, for `d` below ten.
pub open spec fn cifra(d: nat) -> char {
    if d == 0 {
        '0'
    } else if d == 1 {
        '1'
    } else if d == 2 {
        '2'
    } else if d == 3 {
        '3'
    } else if d == 4 {
        '4'
    } else if d == 5 {
        '5'
    } else if d == 6 {
        '6'
    } else if d == 7 {
        '7'
    } else if d == 8 {
        '8'
    } else {
        '9'
    }
}

/// The number that a sequence of digits writes in base ten.
pub open spec fn valor(s: Seq<char>) -> nat
    decreases s.len(),
{
    if s.len() == 0 {
        0
    } else {
        valor(s.drop_last()) * 10 + (s.last() as u32 - 0x30) as nat
    }
}

/// The digits of a written number: the text without a leading `+`.
pub open spec fn cifras_de(s: Seq<char>) -> Seq<char> {
    if s.len() > 0 && s[0] == '+' {
        s.drop_first()
    } else {
        s
    }
}

/// Whether `s` writes a number that fits in 32 bits: an optional `+`, then
/// one digit or more and nothing else.
pub open spec fn es_numero(s: Seq<char>) -> bool {
    let c = cifras_de(s);
    &&& c.len() > 0
    &&& forall|i: int| 0 <= i < c.len() ==> es_cifra(#[trigger] c[i])
    &&& valor(c) <= u32::MAX
}

/// The number that `s` writes, where it writes one.
pub open spec fn numero_de(s: Seq<char>) -> Option<u32> {
    if es_numero(s) {
        Some(valor(cifras_de(s)) as u32)
    } else {
        None
    }
}

/// The number `n` in base ten, without leading zeros.
pub open spec fn decimal(n: nat) -> Seq<char>
    decreases n,
{
    if n < 10 {
        seq![cifra(n)]
    } else {
        decimal(n / 10).push(cifra(n % 10))
    }
}

/// The number `n` in base ten, with a zero in front where it has one digit.
pub open spec fn texto_dos_cifras(n: nat) -> Seq<char> {
    if n < 10 {
        seq!['0', cifra(n)]
    } else {
        decimal(n)
    }
}

/// A birthday as text: day and month with two digits each, a `/` between.
pub open spec fn texto_cumple(dia: nat, mes: nat) -> Seq<char> {
    texto_dos_cifras(dia) + seq!['/'] + texto_dos_cifras(mes)
}

/// A number below one hundred is written with exactly two digits.
pub proof fn lema_dos_cifras(n: nat)
    requires
        n < 100,
    ensures
        texto_dos_cifras(n).len() == 2,
        es_cifra(texto_dos_cifras(n)[0]),
        es_cifra(texto_dos_cifras(n)[1]),
        texto_dos_cifras(n) == seq![cifra(n / 10), cifra(n % 10)],
{
    if n >= 10 {
        assert(decimal(n / 10) == seq![cifra(n / 10)]);
        assert(decimal(n) =~= seq![cifra(n / 10), cifra(n % 10)]);
    } else {
        assert(texto_dos_cifras(n) =~= seq![cifra(n / 10), cifra(n % 10)]);
    }
}

/// The value of a sequence of digits is at least the value of each of its
/// prefixes.
pub proof fn lema_valor_crece(s: Seq<char>, k: int)
    requires
        0 <= k <= s.len(),
        forall|i: int| 0 <= i < s.len() ==> es_cifra(#[trigger] s[i]),
    ensures
        valor(s.take(k)) <= valor(s),
    decreases s.len(),
{
    if k == s.len() {
        assert(s.take(k) =~= s);
    } else {
        lema_valor_crece(s.drop_last(), k);
        assert(s.drop_last().take(k) =~= s.take(k));
    }
}

/// Reads a number from text that holds an optional `+` and decimal digits.
pub fn leer_cifras(s: &str) -> (r: Option<u32>)
    ensures
        r == numero_de(s@),
{
    let n: usize = s.unicode_len();
    let inicio: usize = if n > 0 && s.get_char(0) == '+' {
        1
    } else {
        0
    };
    let ghost c = cifras_de(s@);
    proof {
        assert(c =~= s@.subrange(inicio as int, n as int));
    }
    if inicio == n {
        return None;
    }
    let mut acc: u32 = 0;
    let mut i: usize = inicio;
    proof {
        assert(c.take(0) =~= Seq::<char>::empty());
    }
    while i < n
        invariant
            inicio <= i <= n,
            n == s@.len(),
            c == s@.subrange(inicio as int, n as int),
            c == cifras_de(s@),
            forall|j: int| 0 <= j < i - inicio ==> es_cifra(#[trigger] c[j]),
            acc == valor(c.take(i - inicio)),
        decreases n - i,
    {
        let x: char = s.get_char(i);
        let u: u32 = x as u32;
        if u < 0x30 || u > 0x39 {
            proof {
                assert(c[i - inicio] == x);
            }
            return None;
        }
        let sig: u64 = (acc as u64) * 10 + ((u - 0x30) as u64);
        proof {
            let k = i - inicio;
            assert(c.take(k + 1).drop_last() =~= c.take(k));
            assert(c.take(k + 1).last() == x);
            assert(valor(c.take(k + 1)) == sig);
        }
        if sig > 0xFFFF_FFFF {
            proof {
                if forall|j: int| 0 <= j < c.len() ==> es_cifra(#[trigger] c[j]) {
                    lema_valor_crece(c, i - inicio + 1);
                }
            }
            return None;
        }
        acc = sig as u32;
        i = i + 1;
    }
    proof {
        assert(c.take(i - inicio) =~= c);
    }
    Some(acc)
}

/// Reads the number that a line of input holds, white space at its ends
/// aside. `None` where the line holds no such number.
pub fn pedir_numero(entrada: &str) -> (r: Option<u32>)
    ensures
        r == numero_de(recortado(entrada@)),
{
    leer_cifras(recortar(entrada))
}

/// Calls `format!` with the pattern `{:02}` on an unsigned number. The
/// contract states what that pattern prints: the number in base ten, filled
/// with a zero on the left up to a width of two.
#[verifier::external_body]
pub(crate) fn dos_cifras(n: u32) -> (r: String)
    ensures
        r@ == texto_dos_cifras(n as nat),
{
    format!("{:02}", n)
}

/// The birthday text of a day and a month: `DD/MM`.
pub fn formatear_cumple(dia: u32, mes: u32) -> (r: String)
    ensures
        r@ == texto_cumple(dia as nat, mes as nat),
{
    let mut r: String = dos_cifras(dia);
    let m: String = dos_cifras(mes);
    proof {
        reveal_strlit("/");
        assert("/"@ =~= seq!['/']);
    }
    r.append("/");
    r.append(m.as_str());
    r
}

} // verus!
