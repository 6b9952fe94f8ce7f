use vstd::prelude::*;

verus! {

/// The characters that count as white space: those that Unicode marks
/// `White_Space`.
pub open spec fn es_espacio(c: char) -> bool {
    let u = c as u32;
    ||| 0x09 <= u <= 0x0D
    ||| u == 0x20
    ||| u == 0x85
    ||| u == 0xA0
    ||| u == 0x1680
    ||| 0x2000 <= u <= 0x200A
    ||| u == 0x2028
    ||| u == 0x2029
    ||| u == 0x202F
    ||| u == 0x205F
    ||| u == 0x3000
}

/// `s` without the white space at its start.
pub open spec fn sin_espacios_al_inicio(s: Seq<char>) -> Seq<char>
    decreases s.len(),
{
    if s.len() > 0 && es_espacio(s[0]) {
        sin_espacios_al_inicio(s.drop_first())
    } else {
        s
    }
}

/// `s` without the white space at its end.
pub open spec fn sin_espacios_al_final(s: Seq<char>) -> Seq<char>
    decreases s.len(),
{
    if s.len() > 0 && es_espacio(s.last()) {
        sin_espacios_al_final(s.drop_last())
    } else {
        s
    }
}

/// `s` without the white space at either end.
pub open spec fn recortado(s: Seq<char>) -> Seq<char> {
    sin_espacios_al_final(sin_espacios_al_inicio(s))
}

/// What is left when the white space at the start is taken away does not
/// start with white space.
pub proof fn lema_inicio_sin_espacio(s: Seq<char>)
    ensures
        sin_espacios_al_inicio(s).len() == 0 || !es_espacio(sin_espacios_al_inicio(s)[0]),
    decreases s.len(),
{
    if s.len() > 0 && es_espacio(s[0]) {
        lema_inicio_sin_espacio(s.drop_first());
    }
}

/// What is left when the white space at the end is taken away does not end
/// with white space, and starts as the text did.
pub proof fn lema_final_sin_espacio(s: Seq<char>)
    ensures
        sin_espacios_al_final(s).len() == 0 || !es_espacio(sin_espacios_al_final(s).last()),
        sin_espacios_al_final(s).len() > 0 ==> sin_espacios_al_final(s)[0] == s[0],
    decreases s.len(),
{
    if s.len() > 0 && es_espacio(s.last()) {
        lema_final_sin_espacio(s.drop_last());
    }
}

/// A trimmed text has no white space at either end, and trimming it again
/// changes nothing.
pub proof fn lema_recortado_idempotente(s: Seq<char>)
    ensures
        recortado(s).len() == 0 || (!es_espacio(recortado(s)[0]) && !es_espacio(
            recortado(s).last(),
        )),
        recortado(recortado(s)) == recortado(s),
{
    lema_inicio_sin_espacio(s);
    lema_final_sin_espacio(sin_espacios_al_inicio(s));
}

/// The code of `c` with the ASCII capital letters folded onto the small
/// ones. Every other character keeps its code.
pub open spec fn plegado(c: char) -> u32 {
    let u = c as u32;
    if 0x41 <= u <= 0x5A {
        (u + 0x20) as u32
    } else {
        u
    }
}

/// Two texts are equal but for the case of their ASCII letters.
pub open spec fn igual_sin_caso(a: Seq<char>, b: Seq<char>) -> bool {
    &&& a.len() == b.len()
    &&& forall|i: int| 0 <= i < a.len() ==> plegado(#[trigger] a[i]) == plegado(b[i])
}

/// The dictionary order on texts, character by character: `a` comes strictly
/// before `b`.
pub open spec fn precede(a: Seq<char>, b: Seq<char>) -> bool
    decreases a.len(),
{
    if b.len() == 0 {
        false
    } else if a.len() == 0 {
        true
    } else if a[0] != b[0] {
        (a[0] as int) < (b[0] as int)
    } else {
        precede(a.drop_first(), b.drop_first())
    }
}

/// The place of the first `/` in `s`, or the length of `s` where it has none.
pub open spec fn pos_barra(s: Seq<char>) -> int
    decreases s.len(),
{
    if s.len() == 0 || s[0] == '/' {
        0
    } else {
        1 + pos_barra(s.drop_first())
    }
}

/// The second of the fields that `/` separates in `s`, where there is one.
pub open spec fn segundo_campo(s: Seq<char>) -> Option<Seq<char>> {
    let p = pos_barra(s);
    if p >= s.len() {
        None
    } else {
        let resto = s.skip(p + 1);
        Some(resto.take(pos_barra(resto)))
    }
}

/// The text that `str::to_lowercase` gives for `s`: each character replaced
/// by its Unicode lower case, which may be more than one character.
pub uninterp spec fn minusculas(s: Seq<char>) -> Seq<char>;

/// Calls `str::to_lowercase`. The result depends on the characters of `s`
/// alone; the contract gives it its name and states nothing else of it.
#[verifier::external_body]
pub(crate) fn a_minusculas(s: &str) -> (r: String)
    ensures
        r@ == minusculas(s@),
{
    s.to_lowercase()
}

/// Whether `c` is white space.
pub fn es_blanco(c: char) -> (r: bool)
    ensures
        r == es_espacio(c),
{
    let u: u32 = c as u32;
    (0x09 <= u && u <= 0x0D) || u == 0x20 || u == 0x85 || u == 0xA0 || u == 0x1680 || (0x2000 <= u
        && u <= 0x200A) || u == 0x2028 || u == 0x2029 || u == 0x202F || u == 0x205F || u == 0x3000
}

/// The part of `s` that is left when the white space at both ends is taken
/// away.
pub fn recortar(s: &str) -> (r: &str)
    ensures
        r@ == recortado(s@),
{
    let n: usize = s.unicode_len();
    let mut a: usize = 0;
    proof {
        assert(s@.subrange(0, n as int) =~= s@);
    }
    while a < n && es_blanco(s.get_char(a))
        invariant
            a <= n,
            n == s@.len(),
            sin_espacios_al_inicio(s@) == sin_espacios_al_inicio(s@.subrange(a as int, n as int)),
        decreases n - a,
    {
        proof {
            assert(s@.subrange(a as int, n as int).drop_first() =~= s@.subrange(a + 1, n as int));
        }
        a = a + 1;
    }
    let mut b: usize = n;
    while b > a && es_blanco(s.get_char(b - 1))
        invariant
            a <= b <= n,
            n == s@.len(),
            sin_espacios_al_inicio(s@) == s@.subrange(a as int, n as int),
            recortado(s@) == sin_espacios_al_final(s@.subrange(a as int, b as int)),
        decreases b - a,
    {
        proof {
            assert(s@.subrange(a as int, b as int).drop_last() =~= s@.subrange(a as int, b - 1));
        }
        b = b - 1;
    }
    s.substring_char(a, b)
}

/// Whether two texts hold the same characters.
pub fn iguales(a: &str, b: &str) -> (r: bool)
    ensures
        r == (a@ == b@),
{
    let n: usize = a.unicode_len();
    if b.unicode_len() != n {
        return false;
    }
    let mut i: usize = 0;
    while i < n
        invariant
            i <= n,
            n == a@.len(),
            n == b@.len(),
            forall|j: int| 0 <= j < i ==> a@[j] == b@[j],
        decreases n - i,
    {
        if a.get_char(i) != b.get_char(i) {
            return false;
        }
        i = i + 1;
    }
    proof {
        assert(a@ =~= b@);
    }
    true
}

/// The code of `c`, with an ASCII capital letter folded onto its small one.
pub fn plegar(c: char) -> (r: u32)
    ensures
        r == plegado(c),
{
    let u: u32 = c as u32;
    if 0x41 <= u && u <= 0x5A {
        u + 0x20
    } else {
        u
    }
}

/// Whether two texts are equal when the case of ASCII letters is ignored.
pub fn es_igual_sin_caso(a: &str, b: &str) -> (r: bool)
    ensures
        r == igual_sin_caso(a@, b@),
{
    let n: usize = a.unicode_len();
    if b.unicode_len() != n {
        return false;
    }
    let mut i: usize = 0;
    while i < n
        invariant
            i <= n,
            n == a@.len(),
            n == b@.len(),
            forall|j: int| 0 <= j < i ==> plegado(#[trigger] a@[j]) == plegado(b@[j]),
        decreases n - i,
    {
        if plegar(a.get_char(i)) != plegar(b.get_char(i)) {
            return false;
        }
        i = i + 1;
    }
    true
}

/// Whether `a` comes strictly before `b` in the dictionary order.
pub fn menor(a: &str, b: &str) -> (r: bool)
    ensures
        r == precede(a@, b@),
{
    let na: usize = a.unicode_len();
    let nb: usize = b.unicode_len();
    let mut i: usize = 0;
    proof {
        assert(a@.skip(0) =~= a@);
        assert(b@.skip(0) =~= b@);
    }
    while i < na && i < nb
        invariant
            i <= na,
            i <= nb,
            na == a@.len(),
            nb == b@.len(),
            precede(a@, b@) == precede(a@.skip(i as int), b@.skip(i as int)),
        decreases na - i,
    {
        let x: char = a.get_char(i);
        let y: char = b.get_char(i);
        if x != y {
            return (x as u32) < (y as u32);
        }
        proof {
            assert(a@.skip(i as int).drop_first() =~= a@.skip(i + 1));
            assert(b@.skip(i as int).drop_first() =~= b@.skip(i + 1));
        }
        i = i + 1;
    }
    i < nb
}

/// The place of the first `/` of `s` at or after `desde`, or the length of
/// `s` where none follows.
pub fn buscar_barra(s: &str, desde: usize) -> (r: usize)
    requires
        desde <= s@.len(),
    ensures
        r == desde + pos_barra(s@.skip(desde as int)),
        desde <= r <= s@.len(),
{
    let n: usize = s.unicode_len();
    let mut i: usize = desde;
    while i < n && s.get_char(i) != '/'
        invariant
            desde <= i <= n,
            n == s@.len(),
            desde + pos_barra(s@.skip(desde as int)) == i + pos_barra(s@.skip(i as int)),
        decreases n - i,
    {
        proof {
            assert(s@.skip(i as int).drop_first() =~= s@.skip(i + 1));
        }
        i = i + 1;
    }
    i
}

} // verus!
