//! Decimal text of integers and the id strings built from it.

use vstd::prelude::*;
use vstd::string::StringExecFns;

verus! {

/// The character of one decimal digit.
pub open spec fn digit_char(d: int) -> char {
    if d == 0 {
        '0'
    } else if d == 1 {
        '1'
    } else if d == 2 {
        '2'
    } else if d == 3 {
        '3'
    } else if d == 4 {
        '4'
    } else if d == 5 {
        '5'
    } else if d == 6 {
        '6'
    } else if d == 7 {
        '7'
    } else if d == 8 {
        '8'
    } else {
        '9'
    }
}

/// The decimal digits of a natural number, most significant first, without
/// leading zeros (`0` is the one digit `0`).
pub open spec fn decimal(n: nat) -> Seq<char>
    decreases n,
{
    if n < 10 {
        seq![digit_char(n as int)]
    } else {
        decimal(n / 10).push(digit_char((n % 10) as int))
    }
}

/// The absolute value of an integer.
pub open spec fn magnitude(k: int) -> nat {
    if k < 0 {
        (-k) as nat
    } else {
        k as nat
    }
}

/// The sign that precedes the digits: `-` for a negative number, else nothing.
pub open spec fn sign_text(k: int) -> Seq<char> {
    if k < 0 {
        seq!['-']
    } else {
        Seq::empty()
    }
}

/// A run of `count` zeros.
pub open spec fn zeros(count: nat) -> Seq<char> {
    Seq::new(count, |i: int| '0')
}

/// How many zeros bring the sign and digits of `k` up to `width` characters.
pub open spec fn fill_len(k: int, width: nat) -> nat {
    let used = sign_text(k).len() + decimal(magnitude(k)).len();
    if used < width {
        (width - used) as nat
    } else {
        0
    }
}

/// The plain decimal text of an integer: sign, then digits.
pub open spec fn signed_decimal(k: int) -> Seq<char> {
    sign_text(k) + decimal(magnitude(k))
}

/// The decimal text of an integer filled with zeros to at least `width`
/// characters: sign, then zeros, then digits. A number that already takes
/// `width` characters or more is not cut.
pub open spec fn zero_padded(k: int, width: nat) -> Seq<char> {
    sign_text(k) + zeros(fill_len(k, width)) + decimal(magnitude(k))
}

/// The letters that open every id string.
pub open spec fn id_prefix() -> Seq<char> {
    seq!['i', 'd']
}

/// The id string of a key without padding: `id` and the key's decimal text.
pub open spec fn id_text(k: int) -> Seq<char> {
    id_prefix() + signed_decimal(k)
}

/// The id string of a number padded with zeros: `id` and the number filled to
/// `width` characters.
pub open spec fn padded_id_text(k: int, width: nat) -> Seq<char> {
    id_prefix() + zero_padded(k, width)
}

/// A decimal text has at least one digit.
pub proof fn lemma_decimal_len_positive(n: nat)
    ensures
        decimal(n).len() >= 1,
    decreases n,
{
    if n >= 10 {
        lemma_decimal_len_positive(n / 10);
    }
}

/// A padded text has at least `width` characters, and exactly `width` where
/// the number fits.
pub proof fn lemma_zero_padded_len(k: int, width: nat)
    ensures
        zero_padded(k, width).len() >= width,
        sign_text(k).len() + decimal(magnitude(k)).len() <= width ==> zero_padded(k, width).len()
            == width,
{
}

/// The absolute value of `k`.
pub fn magnitude_of(k: i64) -> (m: u64)
    ensures
        m == magnitude(k as int),
{
    if k < 0 {
        let above: i64 = k + 1;
        let below: u64 = (-above) as u64;
        below + 1
    } else {
        k as u64
    }
}

/// The one-character string of a decimal digit.
fn digit_str(d: u64) -> (s: &'static str)
    requires
        d < 10,
    ensures
        s@ == seq![digit_char(d as int)],
{
    proof {
        reveal_strlit("0");
        reveal_strlit("1");
        reveal_strlit("2");
        reveal_strlit("3");
        reveal_strlit("4");
        reveal_strlit("5");
        reveal_strlit("6");
        reveal_strlit("7");
        reveal_strlit("8");
        reveal_strlit("9");
    }
    let s = if d == 0 {
        "0"
    } else if d == 1 {
        "1"
    } else if d == 2 {
        "2"
    } else if d == 3 {
        "3"
    } else if d == 4 {
        "4"
    } else if d == 5 {
        "5"
    } else if d == 6 {
        "6"
    } else if d == 7 {
        "7"
    } else if d == 8 {
        "8"
    } else {
        "9"
    };
    assert(s@ =~= seq![digit_char(d as int)]);
    s
}

/// Appends the decimal digits of `m` to `out`.
pub fn push_decimal(out: &mut String, m: u64)
    ensures
        final(out)@ == old(out)@ + decimal(m as nat),
    decreases m,
{
    if m >= 10 {
        push_decimal(out, m / 10);
    }
    out.append(digit_str(m % 10));
    assert(out@ =~= old(out)@ + decimal(m as nat));
}

/// The number of decimal digits of `m`.
pub fn decimal_len(m: u64) -> (len: usize)
    ensures
        len == decimal(m as nat).len(),
        1 <= len <= 20,
{
    let mut len: usize = 1;
    let mut rest: u64 = m;
    proof {
        lemma_decimal_len_positive(m as nat);
        assert(pow10(0) == 1);
        assert(rest as nat * 1 == m);
    }
    while rest >= 10
        invariant
            1 <= len <= 20,
            decimal(m as nat).len() == decimal(rest as nat).len() + len - 1,
            rest as nat * pow10((len - 1) as nat) <= m,
        decreases rest,
    {
        proof {
            lemma_pow10_step(rest as nat, (len - 1) as nat, m as nat);
        }
        rest = rest / 10;
        len = len + 1;
    }
    len
}

/// Ten to the power `e`.
pub open spec fn pow10(e: nat) -> nat
    decreases e,
{
    if e == 0 {
        1
    } else {
        10 * pow10((e - 1) as nat)
    }
}

/// Stripping one more digit from a 64-bit number keeps the count of stripped
/// digits under twenty.
proof fn lemma_pow10_step(rest: nat, e: nat, m: nat)
    requires
        rest >= 10,
        rest * pow10(e) <= m,
        m <= u64::MAX,
    ensures
        (rest / 10) * pow10(e + 1) <= m,
        e + 1 < 20,
{
    let p = pow10(e);
    assert(pow10(e + 1) == 10 * p);
    assert((rest / 10) * (10 * p) <= rest * p) by (nonlinear_arith)
        requires
            rest >= 0,
            p >= 0,
    ;
    if e + 1 >= 20 {
        lemma_pow10_grows(19, e);
        assert(pow10(19) == 10000000000000000000) by {
            reveal_with_fuel(pow10, 20);
        }
        assert(rest * p >= 10 * pow10(19)) by (nonlinear_arith)
            requires
                rest >= 10,
                p >= pow10(19),
        ;
    }
}

/// Powers of ten grow with the exponent.
proof fn lemma_pow10_grows(a: nat, b: nat)
    requires
        a <= b,
    ensures
        pow10(a) <= pow10(b),
    decreases b,
{
    if a < b {
        lemma_pow10_grows(a, (b - 1) as nat);
    }
}

/// Appends `count` zeros to `out`.
fn push_zeros(out: &mut String, count: usize)
    ensures
        final(out)@ == old(out)@ + zeros(count as nat),
{
    let mut done: usize = 0;
    proof {
        reveal_strlit("0");
    }
    assert(out@ =~= old(out)@ + zeros(0));
    while done < count
        invariant
            done <= count,
            out@ == old(out)@ + zeros(done as nat),
            "0"@ == seq!['0'],
        decreases count - done,
    {
        out.append("0");
        done = done + 1;
        assert(out@ =~= old(out)@ + zeros(done as nat));
    }
}

/// Appends the sign of `k` to `out`.
fn push_sign(out: &mut String, k: i64)
    ensures
        final(out)@ == old(out)@ + sign_text(k as int),
{
    if k < 0 {
        proof {
            reveal_strlit("-");
        }
        out.append("-");
    }
    assert(out@ =~= old(out)@ + sign_text(k as int));
}

/// Appends the plain decimal text of `k` to `out`: sign, then digits.
pub fn push_signed(out: &mut String, k: i64)
    ensures
        final(out)@ == old(out)@ + signed_decimal(k as int),
{
    push_sign(out, k);
    push_decimal(out, magnitude_of(k));
    assert(out@ =~= old(out)@ + signed_decimal(k as int));
}

/// A string that holds `id`.
fn id_start() -> (out: String)
    ensures
        out@ == id_prefix(),
{
    let mut out = String::new();
    proof {
        reveal_strlit("id");
    }
    out.append("id");
    assert(out@ =~= id_prefix());
    out
}

/// The id string of a key, unpadded: `id7` for 7, `id-7` for -7.
pub fn format_id(k: i64) -> (text: String)
    ensures
        text@ == id_text(k as int),
{
    let mut out = id_start();
    push_signed(&mut out, k);
    out
}

/// The id string of a number, filled with zeros to `width` characters behind
/// `id`: `id007` for 7 and width 3. A wider number is written in full.
pub fn format_id_padded(k: i64, width: usize) -> (text: String)
    ensures
        text@ == padded_id_text(k as int, width as nat),
{
    let m = magnitude_of(k);
    let digits = decimal_len(m);
    let used: usize = if k < 0 {
        digits + 1
    } else {
        digits
    };
    let fill: usize = if used < width {
        width - used
    } else {
        0
    };
    let mut out = id_start();
    push_sign(&mut out, k);
    push_zeros(&mut out, fill);
    push_decimal(&mut out, m);
    assert(out@ =~= padded_id_text(k as int, width as nat));
    out
}

} // verus!
