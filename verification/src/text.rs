//! Character-level formatting helpers: decimal and hexadecimal rendering,
//! ASCII case folding, C-string decoding.

use vstd::prelude::*;

verus! {

/// The ASCII character whose code is `b`.
pub open spec fn ascii(b: int) -> char {
    (b as u8) as char
}

/// Lower-case hexadecimal (and decimal) digit for `d < 16`.
pub open spec fn digit_char(d: nat) -> char {
    if d < 10 {
        ascii(48 + d as int)
    } else {
        ascii(87 + d as int)
    }
}

/// Digits of `n` in `base` (2..=16), most significant first, without leading zeros
/// (zero is rendered as a single `0`).
pub open spec fn digits(n: nat, base: nat) -> Seq<char>
    recommends
        base >= 2,
    decreases n,
{
    if base < 2 || n < base {
        seq![digit_char(n % 16)]
    } else {
        proof {
            lemma_div_smaller(n, base);
        }
        digits(n / base, base).push(digit_char(n % base))
    }
}

/// Dividing a positive number by a base of at least two makes it smaller.
pub proof fn lemma_div_smaller(n: nat, base: nat)
    requires
        base >= 2,
        n >= base,
    ensures
        n / base < n,
{
    assert(n / base < n) by (nonlinear_arith)
        requires
            base >= 2,
            n >= base,
    ;
}

/// Decimal rendering of `n`, as `format!("{}", n)` prints it.
pub open spec fn decimal(n: nat) -> Seq<char> {
    digits(n, 10)
}

/// Lower-case hexadecimal rendering of `n`, as `format!("{:x}", n)` prints it.
pub open spec fn hex(n: nat) -> Seq<char> {
    digits(n, 16)
}

/// `hex(n)` left-padded with `0` to at least `width` characters, as
/// `format!("{:0width$x}", n)` prints it.
pub open spec fn hex_padded(n: nat, width: nat) -> Seq<char> {
    let h = hex(n);
    if h.len() >= width {
        h
    } else {
        Seq::new((width - h.len()) as nat, |i: int| '0') + h
    }
}

/// Appends one character to a `String`.
///
/// Trusted: `String::push` appends the given `char` to the end of the string
/// (std documentation); nothing else changes.
#[verifier::external_body]
pub(crate) fn push_char(s: &mut String, c: char)
    ensures
        final(s)@ == old(s)@.push(c),
{
    s.push(c);
}

/// Appends a string slice to a `String`.
pub fn push_str(s: &mut String, t: &str)
    ensures
        final(s)@ == old(s)@ + t@,
{
    s.append(t);
}

fn digit_exec(d: u64) -> (c: char)
    requires
        d < 16,
    ensures
        c == digit_char(d as nat),
{
    let b: u8 = d as u8;
    if b < 10 {
        (48u8 + b) as char
    } else {
        (87u8 + b) as char
    }
}

/// Appends the digits of `n` in `base` to `s`.
fn push_digits(s: &mut String, n: u64, base: u64)
    requires
        2 <= base <= 16,
    ensures
        final(s)@ == old(s)@ + digits(n as nat, base as nat),
    decreases n,
{
    if n < base {
        let c = digit_exec(n);
        assert(n as nat % 16 == n as nat);
        push_char(s, c);
    } else {
        let ghost s0 = s@;
        proof {
            lemma_div_smaller(n as nat, base as nat);
        }
        push_digits(s, n / base, base);
        let c = digit_exec(n % base);
        push_char(s, c);
        assert(s@ =~= s0 + digits(n as nat, base as nat));
    }
}

/// Appends the decimal rendering of `n`.
pub fn push_decimal(s: &mut String, n: u64)
    ensures
        final(s)@ == old(s)@ + decimal(n as nat),
{
    push_digits(s, n, 10);
}

/// The decimal rendering of `n` as a new `String`.
pub fn decimal_string(n: u64) -> (r: String)
    ensures
        r@ == decimal(n as nat),
{
    let mut s = String::new();
    push_decimal(&mut s, n);
    assert(s@ =~= decimal(n as nat));
    s
}

/// Number of hexadecimal digits of `n`.
fn hex_len(n: u64) -> (r: u64)
    ensures
        r == hex(n as nat).len(),
        1 <= r <= n as int + 1,
    decreases n,
{
    if n < 16 {
        1
    } else {
        proof {
            lemma_div_smaller(n as nat, 16);
        }
        let r = hex_len(n / 16);
        assert(hex(n as nat) == hex((n / 16) as nat).push(digit_char((n % 16) as nat)));
        r + 1
    }
}

/// Appends `n` in lower-case hexadecimal, zero-padded to `width` characters.
pub fn push_hex_padded(s: &mut String, n: u64, width: usize)
    ensures
        final(s)@ == old(s)@ + hex_padded(n as nat, width as nat),
{
    let ghost s0 = s@;
    let len = hex_len(n);
    let w: u64 = width as u64;
    let mut i: u64 = len;
    while i < w
        invariant
            w == width,
            len <= i <= w || (i == len && len >= w),
            len == hex(n as nat).len(),
            s@ == s0 + Seq::new((i - len) as nat, |k: int| '0'),
        decreases w - i,
    {
        let ghost prev = s@;
        push_char(s, '0');
        assert(s@ =~= s0 + Seq::new((i + 1 - len) as nat, |k: int| '0'));
        i = i + 1;
    }
    let ghost mid = s@;
    push_digits(s, n, 16);
    if len >= w {
        assert(s@ =~= s0 + hex_padded(n as nat, width as nat));
    } else {
        assert(i == w);
        assert(s@ =~= s0 + hex_padded(n as nat, width as nat));
    }
}

} // verus!

verus! {

/// ASCII lower-casing of one character; other characters are unchanged.
pub open spec fn ascii_lower(c: char) -> char {
    if 'A' <= c <= 'Z' {
        ascii(c as int + 32)
    } else {
        c
    }
}

/// ASCII lower-casing of every character.
pub open spec fn lower_text(s: Seq<char>) -> Seq<char> {
    s.map_values(|c: char| ascii_lower(c))
}

/// Equality up to ASCII case.
pub open spec fn eq_ignore_ascii_case(a: Seq<char>, b: Seq<char>) -> bool {
    lower_text(a) == lower_text(b)
}

/// ASCII lower-casing of one character.
pub fn ascii_lower_char(c: char) -> (r: char)
    ensures
        r == ascii_lower(c),
{
    if 'A' <= c && c <= 'Z' {
        let b: u8 = c as u8;
        (b + 32) as char
    } else {
        c
    }
}

/// A copy of `s` with ASCII letters lower-cased, as `str::to_ascii_lowercase` does.
pub fn to_ascii_lowercase(s: &str) -> (r: String)
    ensures
        r@ == lower_text(s@),
{
    let n = s.unicode_len();
    let mut out = String::new();
    let mut i: usize = 0;
    while i < n
        invariant
            i <= n,
            n == s@.len(),
            out@ == lower_text(s@.take(i as int)),
        decreases n - i,
    {
        let c = s.get_char(i);
        let l = ascii_lower_char(c);
        push_char(&mut out, l);
        assert(out@ =~= lower_text(s@.take(i + 1)));
        i = i + 1;
    }
    assert(s@.take(n as int) =~= s@);
    out
}

/// Whether `a` equals `b` up to ASCII case.
pub fn str_eq_ignore_ascii_case(a: &str, b: &str) -> (r: bool)
    ensures
        r == eq_ignore_ascii_case(a@, b@),
{
    let n = a.unicode_len();
    let m = b.unicode_len();
    if n != m {
        assert(lower_text(a@).len() != lower_text(b@).len());
        return false;
    }
    let mut i: usize = 0;
    while i < n
        invariant
            i <= n,
            n == a@.len(),
            m == b@.len(),
            n == m,
            forall|j: int| 0 <= j < i ==> ascii_lower(a@[j]) == ascii_lower(b@[j]),
        decreases n - i,
    {
        if ascii_lower_char(a.get_char(i)) != ascii_lower_char(b.get_char(i)) {
            assert(lower_text(a@)[i as int] != lower_text(b@)[i as int]);
            return false;
        }
        i = i + 1;
    }
    assert(lower_text(a@) =~= lower_text(b@));
    true
}

} // verus!

verus! {

/// `16^k`.
pub open spec fn pow16(k: nat) -> nat
    decreases k,
{
    if k == 0 {
        1
    } else {
        16 * pow16((k - 1) as nat)
    }
}

/// A number below `16^k` has at most `k` hexadecimal digits.
pub proof fn lemma_hex_len(n: nat, k: nat)
    requires
        k >= 1,
        n < pow16(k),
    ensures
        1 <= hex(n).len() <= k,
    decreases k,
{
    if n >= 16 {
        lemma_div_smaller(n, 16);
        assert(k >= 2) by {
            if k == 1 {
                assert(pow16(1) == 16 * pow16(0));
            }
        }
        let p = pow16((k - 1) as nat);
        assert(n / 16 < p) by (nonlinear_arith)
            requires
                n < 16 * p,
        ;
        lemma_hex_len(n / 16, (k - 1) as nat);
        assert(hex(n) == hex(n / 16).push(digit_char(n % 16)));
    }
}

/// Padding a number with at most `w` hex digits gives exactly `w` characters.
pub proof fn lemma_hex_padded_len(n: nat, w: nat)
    requires
        w >= 1,
        n < pow16(w),
    ensures
        hex_padded(n, w).len() == w,
{
    lemma_hex_len(n, w);
}

} // verus!
