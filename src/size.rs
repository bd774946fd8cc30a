use vstd::prelude::*;

use crate::text::{decimal, decimal_string, digit_char, push_digit};

verus! {

pub const KB: u64 = 1024;

pub const MB: u64 = 1048576;

pub const GB: u64 = 1073741824;

/// `a / u` rounded to the nearest integer, ties going to the even one.
pub open spec fn round_half_even(a: nat, u: nat) -> nat
    recommends
        u > 0,
{
    let q = a / u;
    let r = a % u;
    if 2 * r > u || (2 * r == u && q % 2 == 1) {
        q + 1
    } else {
        q
    }
}

/// `n / u` written with two decimals, followed by `unit`.
pub open spec fn fixed_two(n: nat, u: nat, unit: Seq<char>) -> Seq<char> {
    let h = round_half_even(n * 100, u);
    decimal(h / 100).push('.').push(digit_char((h % 100) / 10)).push(digit_char(h % 10)) + unit
}

/// A byte count in binary units: whole bytes below 1024, otherwise the
/// largest unit among KB, MB and GB that the size reaches, with two decimals.
pub open spec fn size_text(n: nat) -> Seq<char> {
    if n < KB {
        decimal(n) + "B"@
    } else if n < MB {
        fixed_two(n, KB as nat, "KB"@)
    } else if n < GB {
        fixed_two(n, MB as nat, "MB"@)
    } else {
        fixed_two(n, GB as nat, "GB"@)
    }
}

/// Writes `size / unit` with two decimals, followed by `suffix`.
fn format_fixed(size: u64, unit: u64, suffix: &str) -> (r: String)
    requires
        unit > 0,
    ensures
        r@ == fixed_two(size as nat, unit as nat, suffix@),
{
    let a: u128 = (size as u128) * 100;
    let u: u128 = unit as u128;
    let q: u128 = a / u;
    let rem: u128 = a % u;
    let h: u128 = if 2 * rem > u || (2 * rem == u && q % 2 == 1) {
        q + 1
    } else {
        q
    };
    assert(h == round_half_even(size as nat * 100, unit as nat));
    assert(h <= a) by (nonlinear_arith)
        requires
            q == a / u,
            u > 0,
            h <= q + 1,
            h == q || 2 * rem >= u,
            rem == a % u,
    {
        if h == q + 1 {
            assert(a == u * q + rem);
            assert(u * q + u <= u * q + 2 * rem);
        }
    }
    let mut s = decimal_string((h / 100) as u64);
    proof {
        reveal_strlit(".");
    }
    s.append(".");
    push_digit(&mut s, ((h % 100) / 10) as u64);
    push_digit(&mut s, (h % 10) as u64);
    s.append(suffix);
    s
}

/// A byte count in human-readable binary units.
pub fn format_size(size: u64) -> (r: String)
    ensures
        r@ == size_text(size as nat),
{
    if size >= GB {
        format_fixed(size, GB, "GB")
    } else if size >= MB {
        format_fixed(size, MB, "MB")
    } else if size >= KB {
        format_fixed(size, KB, "KB")
    } else {
        let mut s = decimal_string(size);
        s.append("B");
        s
    }
}

} // verus!
