//! Sizes for display: a byte count in the largest binary unit that keeps the
//! amount at one or more, with two decimals.

use vstd::prelude::*;
use vstd::string::StringExecFns;

verus! {

pub const KIB: u64 = 1024;

pub const MIB: u64 = 1_048_576;

pub const GIB: u64 = 1_073_741_824;

pub const TIB: u64 = 1_099_511_627_776;

/// Which unit a size is shown in: 0 for bytes up to 4 for TiB.
pub open spec fn unit_index(n: u64) -> int {
    if n < KIB {
        0
    } else if n < MIB {
        1
    } else if n < GIB {
        2
    } else if n < TIB {
        3
    } else {
        4
    }
}

pub open spec fn unit_bytes(unit: int) -> int {
    if unit == 0 {
        1
    } else if unit == 1 {
        KIB as int
    } else if unit == 2 {
        MIB as int
    } else if unit == 3 {
        GIB as int
    } else {
        TIB as int
    }
}

pub open spec fn unit_name(unit: int) -> Seq<char> {
    if unit == 0 {
        "B"@
    } else if unit == 1 {
        "KiB"@
    } else if unit == 2 {
        "MiB"@
    } else if unit == 3 {
        "GiB"@
    } else {
        "TiB"@
    }
}

/// `num / den` rounded to the nearest integer, a tie to the even one.
pub open spec fn rounded_ratio(num: int, den: int) -> int {
    let q = num / den;
    let r = num % den;
    if 2 * r > den || (2 * r == den && q % 2 == 1) {
        q + 1
    } else {
        q
    }
}

/// The size in hundredths of its unit.
pub open spec fn hundredths(n: u64) -> int {
    rounded_ratio(n * 100, unit_bytes(unit_index(n)))
}

pub open spec fn digit(d: int) -> char {
    if d == 0 {
        '0'
    } else if d == 1 {
        '1'
    } else if d == 2 {
        '2'
    } else if d == 3 {
        '3'
    } else if d == 4 {
        '4'
    } else if d == 5 {
        '5'
    } else if d == 6 {
        '6'
    } else if d == 7 {
        '7'
    } else if d == 8 {
        '8'
    } else {
        '9'
    }
}

/// The decimal digits of `k`, without leading zeros.
pub open spec fn decimal(k: int) -> Seq<char>
    decreases k,
{
    if k < 10 {
        seq![digit(k)]
    } else {
        decimal(k / 10).push(digit(k % 10))
    }
}

/// The text of a size: the whole units, a point, two decimals, a space and
/// the unit's name.
pub open spec fn size_text(n: u64) -> Seq<char> {
    let h = hundredths(n);
    decimal(h / 100) + seq!['.', digit(h % 100 / 10), digit(h % 10), ' '] + unit_name(
        unit_index(n),
    )
}

fn digit_str(d: u128) -> (s: &'static str)
    requires
        d < 10,
    ensures
        s@ == seq![digit(d as int)],
{
    proof {
        reveal_strlit("0");
        reveal_strlit("1");
        reveal_strlit("2");
        reveal_strlit("3");
        reveal_strlit("4");
        reveal_strlit("5");
        reveal_strlit("6");
        reveal_strlit("7");
        reveal_strlit("8");
        reveal_strlit("9");
    }
    let s = if d == 0 {
        "0"
    } else if d == 1 {
        "1"
    } else if d == 2 {
        "2"
    } else if d == 3 {
        "3"
    } else if d == 4 {
        "4"
    } else if d == 5 {
        "5"
    } else if d == 6 {
        "6"
    } else if d == 7 {
        "7"
    } else if d == 8 {
        "8"
    } else {
        "9"
    };
    assert(s@ =~= seq![digit(d as int)]);
    s
}

/// The decimal digits of `k` as text.
pub fn decimal_text(k: u128) -> (s: String)
    ensures
        s@ == decimal(k as int),
    decreases k,
{
    if k < 10 {
        digit_str(k).to_string()
    } else {
        let mut s = decimal_text(k / 10);
        s.append(digit_str(k % 10));
        assert(s@ =~= decimal(k as int));
        s
    }
}

/// `num / den` rounded to the nearest integer, a tie to the even one.
fn rounded(num: u128, den: u128) -> (h: u128)
    requires
        den > 0,
        den <= TIB,
        num <= 1_844_674_407_370_955_161_500,
    ensures
        h == rounded_ratio(num as int, den as int),
{
    let q: u128 = num / den;
    let r: u128 = num % den;
    assert(q <= num) by (nonlinear_arith)
        requires
            q == num / den,
            den > 0,
    ;
    if 2 * r > den || (2 * r == den && q % 2 == 1) {
        q + 1
    } else {
        q
    }
}

/// Formats a byte count for display, such as `1.50 KiB`.
pub fn format_size(n: u64) -> (s: String)
    ensures
        s@ == size_text(n),
{
    let (unit, bytes): (&'static str, u64) = if n < KIB {
        ("B", 1)
    } else if n < MIB {
        ("KiB", KIB)
    } else if n < GIB {
        ("MiB", MIB)
    } else if n < TIB {
        ("GiB", GIB)
    } else {
        ("TiB", TIB)
    };
    let h: u128 = rounded(n as u128 * 100, bytes as u128);
    let mut s = decimal_text(h / 100);
    s.append(".");
    s.append(digit_str(h % 100 / 10));
    s.append(digit_str(h % 10));
    s.append(" ");
    s.append(unit);
    proof {
        reveal_strlit(".");
        reveal_strlit(" ");
        assert(s@ =~= size_text(n));
    }
    s
}

/// From 1024^4 bytes on, every size is shown in TiB: there is no larger
/// unit.
pub proof fn lemma_large_sizes_in_tib(n: u64)
    requires
        n >= TIB,
    ensures
        unit_index(n) == 4,
        size_text(n) == decimal(hundredths(n) / 100) + seq![
            '.',
            digit(hundredths(n) % 100 / 10),
            digit(hundredths(n) % 10),
            ' ',
        ] + "TiB"@,
{
}

/// A whole number of units is shown with the decimals `00`.
pub proof fn lemma_whole_units(n: u64)
    requires
        n % (unit_bytes(unit_index(n)) as u64) == 0,
    ensures
        hundredths(n) == (n / (unit_bytes(unit_index(n)) as u64)) * 100,
        hundredths(n) % 100 == 0,
{
    let d = unit_bytes(unit_index(n));
    assert(d == 1 || d == 1024 || d == 1_048_576 || d == 1_073_741_824 || d
        == 1_099_511_627_776);
    let k = n as int / d;
    assert(n as int == k * d) by {
        vstd::arithmetic::div_mod::lemma_fundamental_div_mod(n as int, d);
    }
    assert((n * 100) == (k * 100) * d) by (nonlinear_arith)
        requires
            n as int == k * d,
    ;
    vstd::arithmetic::div_mod::lemma_div_multiples_vanish(k * 100, d);
    vstd::arithmetic::div_mod::lemma_mod_multiples_basic(k * 100, d);
}

} // verus!
