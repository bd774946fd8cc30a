use vstd::prelude::*;

verus! {

/// Message returned when the divisor is zero.
pub const DIVISION_BY_ZERO: &'static str = "Erreur: Division par zéro";

/// Integer quotient rounded toward zero, as Rust's `/` computes it.
pub open spec fn quotient_toward_zero(a: int, b: int) -> int {
    if a == 0 {
        0
    } else if a > 0 && b > 0 {
        a / b
    } else if a < 0 && b < 0 {
        (-a) / (-b)
    } else if a < 0 {
        -((-a) / b)
    } else {
        -(a / (-b))
    }
}

proof fn lemma_quotient_in_range(a: int, b: int)
    requires
        i32::MIN <= a <= i32::MAX,
        i32::MIN <= b <= i32::MAX,
        b != 0,
        !(a == i32::MIN && b == -1),
    ensures
        i32::MIN <= quotient_toward_zero(a, b) <= i32::MAX,
{
    if a > 0 && b > 0 {
        assert(0 <= a / b <= a) by (nonlinear_arith)
            requires
                a > 0 && b > 0,
        ;
    } else if a < 0 && b < 0 {
        if b == -1 {
            assert((-a) / 1 == -a);
        } else {
            assert(0 <= (-a) / (-b) <= 0x4000_0000) by (nonlinear_arith)
                requires
                    0 < -a <= 0x8000_0000 && -b >= 2,
            ;
        }
    } else if a < 0 {
        assert(0 <= (-a) / b <= -a) by (nonlinear_arith)
            requires
                a < 0 && b > 0,
        ;
    } else if a > 0 {
        assert(0 <= a / (-b) <= a) by (nonlinear_arith)
            requires
                a > 0 && b < 0,
        ;
    }
}

/// Divides `a` by `b`, reporting a division by zero as an error message.
pub fn division(a: i32, b: i32) -> (r: Result<i32, String>)
    requires
        !(a == i32::MIN && b == -1),
    ensures
        b == 0 ==> r is Err && r->Err_0@ == DIVISION_BY_ZERO@,
        b != 0 ==> r is Ok && r->Ok_0 as int == quotient_toward_zero(a as int, b as int),
{
    proof {
        if b != 0 {
            lemma_quotient_in_range(a as int, b as int);
        }
    }
    match a.checked_div(b) {
        Some(q) => Ok(q),
        None => Err(String::from_str(DIVISION_BY_ZERO)),
    }
}

} // verus!
