//! Decimal rendering of scaled rates.
//!
//! A rate is shown as a magnitude with two fractional digits, scaled by the
//! largest binary prefix that does not exceed it. The digits are those of the
//! double-precision quotient of the rate and its divisor, rounded to
//! hundredths with ties going to the even neighbour, and are computed here in
//! integers alone.

use vstd::prelude::*;
use vstd::string::StringExecFns;

verus! {

/// One kibibyte.
pub const KIB: u64 = 1024;

/// One mebibyte.
pub const MIB: u64 = 1_048_576;

/// One gibibyte.
pub const GIB: u64 = 1_073_741_824;

/// One tebibyte.
pub const TIB: u64 = 1_099_511_627_776;

/// The least whole number that a double-precision float cannot tell from its
/// successor: two to the power 53.
pub const EXACT_LIMIT: u64 = 0x20_0000_0000_0000;

/// The character that stands for the decimal digit `d`.
pub open spec fn digit(d: nat) -> char {
    if d == 0 {
        '0'
    } else if d == 1 {
        '1'
    } else if d == 2 {
        '2'
    } else if d == 3 {
        '3'
    } else if d == 4 {
        '4'
    } else if d == 5 {
        '5'
    } else if d == 6 {
        '6'
    } else if d == 7 {
        '7'
    } else if d == 8 {
        '8'
    } else {
        '9'
    }
}

/// The decimal numeral of `n`, most significant digit first, without leading
/// zeros.
pub open spec fn decimal(n: nat) -> Seq<char>
    decreases n,
{
    if n < 10 {
        seq![digit(n)]
    } else {
        decimal(n / 10).push(digit(n % 10))
    }
}

/// The quotient `x / d` rounded to the nearest whole number; where `x / d`
/// lies halfway between two whole numbers, the even one is taken.
pub open spec fn nearest(x: nat, d: nat) -> nat
    recommends
        d > 0,
{
    let q = x / d;
    let r = x % d;
    if 2 * r > d || (2 * r == d && q % 2 == 1) {
        q + 1
    } else {
        q
    }
}

/// The distance between neighbouring double-precision numbers at the
/// magnitude of `n`: one below two to the power 53, and twice as much with
/// every further bit.
pub open spec fn spacing(n: nat) -> nat
    decreases n,
{
    if n < EXACT_LIMIT {
        1
    } else {
        2 * spacing(n / 2)
    }
}

/// The double-precision number nearest to `n`, ties going to the one with an
/// even significand.
pub open spec fn as_double(n: nat) -> nat {
    nearest(n, spacing(n)) * spacing(n)
}

/// The divisor of the band that holds `n`.
pub open spec fn divisor(n: u64) -> nat {
    if n < KIB {
        1
    } else if n < MIB {
        KIB as nat
    } else if n < GIB {
        MIB as nat
    } else if n < TIB {
        GIB as nat
    } else {
        TIB as nat
    }
}

/// The unit of the band that holds `n`, with the space that parts it from the
/// digits.
pub open spec fn suffix(n: u64) -> Seq<char> {
    if n < KIB {
        " B/s"@
    } else if n < MIB {
        " KiB/s"@
    } else if n < GIB {
        " MiB/s"@
    } else if n < TIB {
        " GiB/s"@
    } else {
        " TiB/s"@
    }
}

/// The magnitude of `n` in its band, in hundredths.
pub open spec fn hundredths(n: u64) -> nat {
    nearest(as_double(n as nat) * 100, divisor(n))
}

/// The text that stands for `n` bytes per second.
pub open spec fn rendered(n: u64) -> Seq<char> {
    let h = hundredths(n);
    decimal(h / 100) + "."@ + seq![digit(h % 100 / 10), digit(h % 10)] + suffix(n)
}

/// Every rate falls in exactly one band: its divisor is a power of 1024 up to
/// the fourth, does not exceed a non-zero rate, and, below the topmost band,
/// is more than a 1024th of the rate.
pub proof fn lemma_bands_cover(n: u64)
    ensures
        divisor(n) == 1 || divisor(n) == KIB || divisor(n) == MIB || divisor(n) == GIB || divisor(n)
            == TIB,
        divisor(n) == 1 <==> n < KIB,
        divisor(n) == KIB <==> KIB <= n < MIB,
        divisor(n) == MIB <==> MIB <= n < GIB,
        divisor(n) == GIB <==> GIB <= n < TIB,
        divisor(n) == TIB <==> TIB <= n,
        n > 0 ==> divisor(n) <= n,
        n < TIB ==> n < 1024 * divisor(n),
{
}

/// Below two to the power 53 every whole number is a double-precision number:
/// the rendered digits are then those of the exact quotient.
pub proof fn lemma_double_exact(n: nat)
    requires
        n < EXACT_LIMIT,
    ensures
        as_double(n) == n,
{
    assert(spacing(n) == 1);
    assert(nearest(n, 1) == n);
}

/// The magnitude shown is that of the rate in its band: whole bytes below
/// the first prefix, and from 1.00 to 1024.00 under every prefix but the
/// largest, which takes all rates above.
pub proof fn lemma_magnitude_in_band(n: u64)
    ensures
        n < KIB ==> hundredths(n) == 100 * n,
        KIB <= n ==> 100 <= hundredths(n),
        n < TIB ==> hundredths(n) <= 102_400,
        hundredths(n) <= 1_677_721_600,
{
    let m = as_double(n as nat);
    if n < EXACT_LIMIT {
        lemma_double_exact(n as nat);
    } else {
        lemma_double_bounds(n as nat);
    }
    if n < KIB {
        assert(nearest(m * 100, 1) == m * 100);
    } else if n < MIB {
        assert(100 <= nearest(m * 100, 1024) <= 102_400);
    } else if n < GIB {
        assert(100 <= nearest(m * 100, 1_048_576) <= 102_400);
    } else if n < TIB {
        assert(100 <= nearest(m * 100, 1_073_741_824) <= 102_400);
    } else {
        assert(100 <= nearest(m * 100, 1_099_511_627_776) <= 1_677_721_600);
    }
}

/// Rounding to the nearest double-precision number keeps a number of more
/// than 53 bits between the powers of two around it.
proof fn lemma_double_bounds(n: nat)
    requires
        EXACT_LIMIT <= n <= u64::MAX,
    ensures
        EXACT_LIMIT <= as_double(n) <= 0x1_0000_0000_0000_0000,
{
    lemma_spacing(n);
    let s = spacing(n);
    let q = nearest(n, s);
    assert(0x10_0000_0000_0000 <= n / s < 0x20_0000_0000_0000) by (nonlinear_arith)
        requires
            s >= 1,
            s * 0x10_0000_0000_0000 <= n < s * 0x20_0000_0000_0000,
    {
    }
    assert(0x20_0000_0000_0000 <= q * s <= 0x1_0000_0000_0000_0000) by (nonlinear_arith)
        requires
            2 <= s <= 2048,
            0x10_0000_0000_0000 <= q <= 0x20_0000_0000_0000,
    {
    }
}

/// The spacing at the magnitude of `n` is the power of two that brings `n`
/// down to 53 bits.
proof fn lemma_spacing(n: nat)
    requires
        n <= u64::MAX,
    ensures
        n < EXACT_LIMIT ==> spacing(n) == 1,
        n >= EXACT_LIMIT ==> spacing(n) >= 2 && spacing(n) * 0x10_0000_0000_0000 <= n,
        n < spacing(n) * EXACT_LIMIT,
        spacing(n) == 1 || spacing(n) == 2 || spacing(n) == 4 || spacing(n) == 8 || spacing(n)
            == 16 || spacing(n) == 32 || spacing(n) == 64 || spacing(n) == 128 || spacing(n)
            == 256 || spacing(n) == 512 || spacing(n) == 1024 || spacing(n) == 2048,
    decreases n,
{
    if n >= EXACT_LIMIT {
        lemma_spacing(n / 2);
    }
}

/// The one-character text of the decimal digit `d`.
fn digit_str(d: u128) -> (s: &'static str)
    requires
        d < 10,
    ensures
        s@ == seq![digit(d as nat)],
{
    proof {
        reveal_strlit("0");
        reveal_strlit("1");
        reveal_strlit("2");
        reveal_strlit("3");
        reveal_strlit("4");
        reveal_strlit("5");
        reveal_strlit("6");
        reveal_strlit("7");
        reveal_strlit("8");
        reveal_strlit("9");
    }
    let s = if d == 0 {
        "0"
    } else if d == 1 {
        "1"
    } else if d == 2 {
        "2"
    } else if d == 3 {
        "3"
    } else if d == 4 {
        "4"
    } else if d == 5 {
        "5"
    } else if d == 6 {
        "6"
    } else if d == 7 {
        "7"
    } else if d == 8 {
        "8"
    } else {
        "9"
    };
    assert(s@ =~= seq![digit(d as nat)]);
    s
}

/// Appends the decimal numeral of `n` to `out`.
fn push_decimal(out: &mut String, n: u128)
    ensures
        final(out)@ == old(out)@ + decimal(n as nat),
    decreases n,
{
    if n >= 10 {
        push_decimal(out, n / 10);
    }
    out.append(digit_str(n % 10));
    assert(out@ =~= old(out)@ + decimal(n as nat));
}

/// Computes [`nearest`].
fn round_div(x: u128, d: u128) -> (q: u128)
    requires
        0 < d <= 0x1_0000_0000_0000_0000,
        x / d < u128::MAX,
    ensures
        q == nearest(x as nat, d as nat),
{
    let q: u128 = x / d;
    let r: u128 = x % d;
    if 2 * r > d || (2 * r == d && q % 2 == 1) {
        q + 1
    } else {
        q
    }
}

/// Computes [`spacing`].
fn spacing_of(n: u64) -> (s: u64)
    ensures
        s == spacing(n as nat),
    decreases n,
{
    if n < EXACT_LIMIT {
        1
    } else {
        proof {
            lemma_spacing((n / 2) as nat);
        }
        2 * spacing_of(n / 2)
    }
}

/// Computes [`as_double`].
fn to_double(n: u64) -> (m: u128)
    ensures
        m == as_double(n as nat),
        m <= 0x1_0000_0000_0000_0000,
{
    proof {
        lemma_spacing(n as nat);
        if n < EXACT_LIMIT {
            lemma_double_exact(n as nat);
        } else {
            lemma_double_bounds(n as nat);
        }
    }
    let s: u64 = spacing_of(n);
    let q: u128 = round_div(n as u128, s as u128);
    q * (s as u128)
}

/// The divisor of the band that holds `n`, and the text of its unit.
fn band(n: u64) -> (r: (u128, &'static str))
    ensures
        r.0 == divisor(n),
        r.1@ == suffix(n),
{
    if n < KIB {
        (1, " B/s")
    } else if n < MIB {
        (KIB as u128, " KiB/s")
    } else if n < GIB {
        (MIB as u128, " MiB/s")
    } else if n < TIB {
        (GIB as u128, " GiB/s")
    } else {
        (TIB as u128, " TiB/s")
    }
}

/// Writes `n` bytes per second out as text: the magnitude in its band with
/// two fractional digits, a space, and the band's unit.
pub fn render(n: u64) -> (text: String)
    ensures
        text@ == rendered(n),
{
    let (d, unit) = band(n);
    let m: u128 = to_double(n);
    let h: u128 = round_div(m * 100, d);
    let mut text = String::new();
    push_decimal(&mut text, h / 100);
    text.append(".");
    text.append(digit_str(h % 100 / 10));
    text.append(digit_str(h % 10));
    text.append(unit);
    assert(text@ =~= rendered(n));
    text
}

} // verus!
