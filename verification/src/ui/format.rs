//! Byte counts as text, the way `format!("{:.2}", x)` prints the `f64`
//! value `x = bytes / unit`.
//!
//! `bytes` is first converted to the nearest `f64` (ties to an even
//! significand), which only changes counts of 2^53 bytes and more. Dividing
//! by a power of two is exact, and printing with two decimals rounds the
//! exact value to the nearest hundredth, ties to an even last digit.
use vstd::prelude::*;

verus! {

/// The character of a decimal digit.
pub open spec fn digit_char(d: nat) -> char {
    (48 + d) as char
}

/// The decimal notation of `n`, without leading zeros.
pub open spec fn decimal(n: nat) -> Seq<char>
    decreases n,
{
    if n < 10 {
        seq![digit_char(n)]
    } else {
        decimal(n / 10).push(digit_char(n % 10))
    }
}

/// `num / den` rounded to the nearest integer, ties to the even one.
pub open spec fn div_round_even(num: nat, den: nat) -> nat {
    let q = num / den;
    let r = num % den;
    if 2 * r > den || (2 * r == den && q % 2 == 1) {
        q + 1
    } else {
        q
    }
}

/// `num / den` printed with exactly two decimals.
pub open spec fn fixed2(num: nat, den: nat) -> Seq<char> {
    let h = div_round_even(num * 100, den);
    decimal(h / 100) + seq!['.'] + seq![digit_char((h % 100) / 10), digit_char(h % 10)]
}

/// `2` to the power `k`.
pub open spec fn two_pow(k: nat) -> nat
    decreases k,
{
    if k == 0 {
        1
    } else {
        2 * two_pow((k - 1) as nat)
    }
}

/// The smallest of `p, 2p, 4p, ...` (at most `fuel` doublings) by which
/// `b` divides below 2^53.
pub open spec fn f64_ulp(b: nat, p: nat, fuel: nat) -> nat
    decreases fuel,
{
    if fuel == 0 || b / p < 0x20_0000_0000_0000 {
        p
    } else {
        f64_ulp(b, 2 * p, (fuel - 1) as nat)
    }
}

/// The value of `b as f64` for `b < 2^64`: `b` rounded to 53 significant bits.
pub open spec fn f64_value(b: nat) -> nat {
    let p = f64_ulp(b, 1, 11);
    div_round_even(b, p) * p
}

pub const KIB: u64 = 1024;
pub const MIB: u64 = 1_048_576;
pub const GIB: u64 = 1_073_741_824;

/// The text of a byte count: gigabytes, megabytes or kilobytes with two
/// decimals from one unit up, plain bytes below a kilobyte.
pub open spec fn bytes_text(bytes: u64) -> Seq<char> {
    if bytes >= GIB {
        fixed2(f64_value(bytes as nat), GIB as nat) + " GB"@
    } else if bytes >= MIB {
        fixed2(bytes as nat, MIB as nat) + " MB"@
    } else if bytes >= KIB {
        fixed2(bytes as nat, KIB as nat) + " KB"@
    } else {
        decimal(bytes as nat) + " B"@
    }
}

fn digit_str(d: u128) -> (s: &'static str)
    requires
        d < 10,
    ensures
        s@ == seq![digit_char(d as nat)],
{
    if d == 0 {
        proof { reveal_strlit("0"); }
        "0"
    } else if d == 1 {
        proof { reveal_strlit("1"); }
        "1"
    } else if d == 2 {
        proof { reveal_strlit("2"); }
        "2"
    } else if d == 3 {
        proof { reveal_strlit("3"); }
        "3"
    } else if d == 4 {
        proof { reveal_strlit("4"); }
        "4"
    } else if d == 5 {
        proof { reveal_strlit("5"); }
        "5"
    } else if d == 6 {
        proof { reveal_strlit("6"); }
        "6"
    } else if d == 7 {
        proof { reveal_strlit("7"); }
        "7"
    } else if d == 8 {
        proof { reveal_strlit("8"); }
        "8"
    } else {
        proof { reveal_strlit("9"); }
        "9"
    }
}

/// Appends the decimal notation of `n` to `s`.
fn push_decimal(s: &mut String, n: u128)
    ensures
        final(s)@ == old(s)@ + decimal(n as nat),
    decreases n,
{
    if n >= 10 {
        push_decimal(s, n / 10);
    }
    s.append(digit_str(n % 10));
    assert(s@ =~= old(s)@ + decimal(n as nat));
}

/// The decimal notation of `n`.
pub fn decimal_string(n: u64) -> (s: String)
    ensures
        s@ == decimal(n as nat),
{
    let mut s = String::new();
    push_decimal(&mut s, n as u128);
    assert(s@ =~= decimal(n as nat));
    s
}

fn div_round_even_exec(num: u128, den: u128) -> (r: u128)
    requires
        0 < den < 0x1_0000_0000_0000_0000_0000_0000,
        num < 0x1_0000_0000_0000_0000_0000_0000_0000,
    ensures
        r == div_round_even(num as nat, den as nat),
        r <= num / den + 1,
{
    let q = num / den;
    let r = num % den;
    if 2 * r > den || (2 * r == den && q % 2 == 1) {
        q + 1
    } else {
        q
    }
}

/// Appends `num / den` printed with two decimals to `s`.
fn push_fixed2(s: &mut String, num: u128, den: u128)
    requires
        0 < den < 0x1_0000_0000_0000_0000_0000_0000,
        num < 0x1_0000_0000_0000_0000_0000_0000,
    ensures
        final(s)@ == old(s)@ + fixed2(num as nat, den as nat),
{
    let h = div_round_even_exec(num * 100, den);
    push_decimal(s, h / 100);
    s.append(".");
    let frac = h % 100;
    s.append(digit_str(frac / 10));
    s.append(digit_str(frac % 10));
    proof {
        reveal_strlit(".");
        assert(final(s)@ =~= old(s)@ + fixed2(num as nat, den as nat));
    }
}

proof fn lemma_two_pow_monotone(k: nat, n: nat)
    requires
        k <= n,
    ensures
        1 <= two_pow(k) <= two_pow(n),
    decreases n,
{
    if n > 0 {
        if k < n {
            lemma_two_pow_monotone(k, (n - 1) as nat);
        } else {
            lemma_two_pow_monotone((n - 1) as nat, (n - 1) as nat);
        }
    }
}

proof fn lemma_two_pow_bound(k: nat)
    requires
        k <= 11,
    ensures
        1 <= two_pow(k) <= 2048,
{
    lemma_two_pow_monotone(k, 11);
    assert(two_pow(11) == 2048) by {
        reveal_with_fuel(two_pow, 12);
    }
}

/// The value of `b as f64`, which is at most 2^64.
fn f64_value_exec(b: u64) -> (v: u128)
    ensures
        v == f64_value(b as nat),
        v <= 0x1_0000_0000_0000_0000,
{
    let mut p: u128 = 1;
    let mut fuel: u64 = 11;
    while fuel > 0 && (b as u128) / p >= 0x20_0000_0000_0000
        invariant
            fuel <= 11,
            1 <= p <= 2048,
            p == two_pow((11 - fuel) as nat),
            f64_ulp(b as nat, p as nat, fuel as nat) == f64_ulp(b as nat, 1, 11),
        decreases fuel,
    {
        proof {
            lemma_two_pow_bound((12 - fuel) as nat);
        }
        p = p * 2;
        fuel = fuel - 1;
    }
    proof {
        lemma_two_pow_bound((11 - fuel) as nat);
        if fuel == 0 {
            assert(p == 2048) by {
                reveal_with_fuel(two_pow, 12);
            }
        }
    }
    let b128 = b as u128;
    if fuel == 0 {
        assert(b128 / 2048 < 0x20_0000_0000_0000) by (nonlinear_arith)
            requires
                b128 < 0x1_0000_0000_0000_0000,
        ;
    }
    assert(b128 / p < 0x20_0000_0000_0000);
    let m = div_round_even_exec(b128, p);
    assert(m * p <= 0x20_0000_0000_0000 * 2048) by (nonlinear_arith)
        requires
            m <= 0x20_0000_0000_0000,
            1 <= p <= 2048,
    ;
    m * p
}

/// A byte count as text: "1.50 GB", "2.00 MB", "1.00 KB" or "512 B".
pub fn format_bytes(bytes: u64) -> (s: String)
    ensures
        s@ == bytes_text(bytes),
{
    let mut s = String::new();
    if bytes >= GIB {
        let v = f64_value_exec(bytes);
        push_fixed2(&mut s, v, GIB as u128);
        s.append(" GB");
    } else if bytes >= MIB {
        push_fixed2(&mut s, bytes as u128, MIB as u128);
        s.append(" MB");
    } else if bytes >= KIB {
        push_fixed2(&mut s, bytes as u128, KIB as u128);
        s.append(" KB");
    } else {
        push_decimal(&mut s, bytes as u128);
        s.append(" B");
    }
    assert(s@ =~= bytes_text(bytes));
    s
}

/// A transfer rate as text: the byte count followed by "/s".
pub fn format_speed(bytes_per_sec: u64) -> (s: String)
    ensures
        s@ == bytes_text(bytes_per_sec) + "/s"@,
{
    let mut s = format_bytes(bytes_per_sec);
    s.append("/s");
    s
}

} // verus!
