use vstd::prelude::*;
use crate::model::{trunc_div, trunc_rem, decode_spec, Instruction};
use vstd::arithmetic::div_mod::lemma_mul_mod_noop_left;

verus! {

/// `a / m`, rounded toward zero.
pub fn div_toward_zero(a: i32, m: i32) -> (r: i32)
    requires
        m > 0,
    ensures
        r == trunc_div(a as int, m as int),
        a >= 0 ==> 0 <= r <= a,
        a < 0 ==> a <= r <= 0,
{
    let wide: i64 = a as i64;
    if wide >= 0 {
        proof {
            let n: int = wide as int;
            assert(0 <= n / (m as int) <= n) by (nonlinear_arith)
                requires
                    n >= 0,
                    m > 0,
            ;
        }
        (wide / m as i64) as i32
    } else {
        proof {
            let n: int = -(wide as int);
            assert(n / (m as int) <= n) by (nonlinear_arith)
                requires
                    n > 0,
                    m > 0,
            ;
        }
        (-((-wide) / m as i64)) as i32
    }
}

/// `a % m`, with the sign of `a`.
pub fn rem_toward_zero(a: i32, m: i32) -> (r: i32)
    requires
        m > 0,
    ensures
        r == trunc_rem(a as int, m as int),
        -(m as int) < r < m,
{
    let wide: i64 = a as i64;
    if wide >= 0 {
        (wide % m as i64) as i32
    } else {
        (-((-wide) % m as i64)) as i32
    }
}

/// Reducing a number to its remainder before scaling it by a non-negative
/// factor gives the same remainder as scaling it first.
pub proof fn lemma_rem_scale(b: int, c: int, m: int)
    requires
        m > 0,
        c >= 0,
    ensures
        trunc_rem(trunc_rem(b, m) * c, m) == trunc_rem(b * c, m),
{
    if b >= 0 {
        assert(b % m >= 0);
        assert((b % m) * c >= 0) by (nonlinear_arith)
            requires
                b % m >= 0,
                c >= 0,
        ;
        assert(b * c >= 0) by (nonlinear_arith)
            requires
                b >= 0,
                c >= 0,
        ;
        lemma_mul_mod_noop_left(b, c, m);
    } else {
        let n = -b;
        let p = (n % m) * c;
        let q = n * c;
        assert(p >= 0) by (nonlinear_arith)
            requires
                n % m >= 0,
                c >= 0,
                p == (n % m) * c,
        ;
        assert(q >= 0) by (nonlinear_arith)
            requires
                n > 0,
                c >= 0,
                q == n * c,
        ;
        assert(trunc_rem(b, m) * c == -p) by (nonlinear_arith)
            requires
                trunc_rem(b, m) == -(n % m),
                p == (n % m) * c,
        ;
        assert(b * c == -q) by (nonlinear_arith)
            requires
                n == -b,
                q == n * c,
        ;
        lemma_mul_mod_noop_left(n, c, m);
        assert(p % m == q % m);
        lemma_rem_of_nonpositive(p, m);
        lemma_rem_of_nonpositive(q, m);
    }
}

/// For a non-positive number the remainder is minus that of its negation.
proof fn lemma_rem_of_nonpositive(p: int, m: int)
    requires
        m > 0,
        p >= 0,
    ensures
        trunc_rem(-p, m) == -(p % m),
{
    if p == 0 {
        assert(0int % m == 0) by (nonlinear_arith)
            requires
                m > 0,
        ;
    }
}

/// The instruction named by an opcode digit, if any.
pub fn decode(opcode: i32) -> (r: Option<Instruction>)
    ensures
        r == decode_spec(opcode as int),
{
    match opcode {
        0 => Some(Instruction::Inp),
        1 => Some(Instruction::Cla),
        2 => Some(Instruction::Add),
        3 => Some(Instruction::Tac),
        4 => Some(Instruction::Sft),
        5 => Some(Instruction::Out),
        6 => Some(Instruction::Sto),
        7 => Some(Instruction::Sub),
        8 => Some(Instruction::Jmp),
        9 => Some(Instruction::Hrs),
        _ => None,
    }
}

} // verus!
