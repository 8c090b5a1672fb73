//! What the arithmetic, comparison and bitwise instructions compute.
//!
//! Every value is an unsigned byte. Sums, differences, products and powers
//! are taken modulo 256. Division and remainder are the ordinary ones and
//! have no value for a zero divisor.

use crate::machine::wrap;
use crate::opcode;
use vstd::arithmetic::div_mod::lemma_mul_mod_noop_left;
use vstd::arithmetic::power::*;
use vstd::prelude::*;

verus! {

/// 1 for true, 0 for false.
pub open spec fn truth(b: bool) -> u8 {
    if b {
        1
    } else {
        0
    }
}

/// The instructions that replace the two values on top of the stack by one.
pub open spec fn is_binary(op: u8) -> bool {
    op == opcode::COMBINE || op == opcode::ADD || op == opcode::SUB || op == opcode::MUL || op == opcode::DIV || op == opcode::REM || op == opcode::POW
        || op == opcode::EQUAL || op == opcode::LESS || op == opcode::GREATER || op == opcode::OR || op == opcode::AND || op == opcode::XOR
}

/// The instructions that replace the value on top of the stack by another.
pub open spec fn is_unary(op: u8) -> bool {
    op == opcode::NOT || op == opcode::INVERT
}

/// The instructions that divide: they have no result when the divisor is 0.
pub open spec fn divides(op: u8) -> bool {
    op == opcode::DIV || op == opcode::REM
}

/// What a binary instruction makes of `a`, the value popped second, and `b`,
/// the value popped first.
pub open spec fn binary(op: u8, a: u8, b: u8) -> u8
    recommends
        is_binary(op),
        divides(op) ==> b != 0,
{
    if op == opcode::COMBINE {
        (a << 4) | b
    } else if op == opcode::ADD {
        wrap(a + b)
    } else if op == opcode::SUB {
        wrap(a - b)
    } else if op == opcode::MUL {
        wrap(a * b)
    } else if op == opcode::DIV {
        a / b
    } else if op == opcode::REM {
        a % b
    } else if op == opcode::POW {
        wrap(pow(a as int, b as nat))
    } else if op == opcode::EQUAL {
        truth(a == b)
    } else if op == opcode::LESS {
        truth(a < b)
    } else if op == opcode::GREATER {
        truth(a > b)
    } else if op == opcode::OR {
        a | b
    } else if op == opcode::AND {
        a & b
    } else {
        a ^ b
    }
}

/// What a unary instruction makes of `a`.
pub open spec fn unary(op: u8, a: u8) -> u8
    recommends
        is_unary(op),
{
    if op == opcode::NOT {
        truth(a == 0)
    } else {
        !a
    }
}

/// `base` to the power `exp`, modulo 256.
pub fn wrapping_pow(base: u8, exp: u8) -> (r: u8)
    ensures
        r == wrap(pow(base as int, exp as nat)),
{
    let mut acc: u8 = 1;
    let mut i: u8 = 0;
    proof {
        lemma_pow0(base as int);
    }
    while i < exp
        invariant
            i <= exp,
            acc == wrap(pow(base as int, i as nat)),
        decreases exp - i,
    {
        proof {
            let p = pow(base as int, i as nat);
            assert(pow(base as int, (i + 1) as nat) == base * p) by {
                reveal(pow);
            }
            lemma_mul_mod_noop_left(p, base as int, 256);
            assert(p * base == base * p) by (nonlinear_arith);
            assert((acc as nat * base as nat) == (p % 256) * base) by (nonlinear_arith)
                requires
                    acc == p % 256,
            ;
        }
        acc = acc.wrapping_mul(base);
        i += 1;
    }
    acc
}

/// Computes a binary instruction on `a`, the value popped second, and `b`,
/// the value popped first.
pub(crate) fn compute_binary(op: u8, a: u8, b: u8) -> (r: u8)
    requires
        is_binary(op),
        divides(op) ==> b != 0,
    ensures
        r == binary(op, a, b),
{
    match op {
        opcode::COMBINE => a << 4 | b,
        opcode::ADD => a.wrapping_add(b),
        opcode::SUB => a.wrapping_sub(b),
        opcode::MUL => a.wrapping_mul(b),
        opcode::DIV => a / b,
        opcode::REM => a % b,
        opcode::POW => wrapping_pow(a, b),
        opcode::EQUAL => if a == b {
            1
        } else {
            0
        },
        opcode::LESS => if a < b {
            1
        } else {
            0
        },
        opcode::GREATER => if a > b {
            1
        } else {
            0
        },
        opcode::OR => a | b,
        opcode::AND => a & b,
        _ => a ^ b,
    }
}

/// Computes a unary instruction on `a`.
pub(crate) fn compute_unary(op: u8, a: u8) -> (r: u8)
    requires
        is_unary(op),
    ensures
        r == unary(op, a),
{
    if op == opcode::NOT {
        if a == 0 {
            1
        } else {
            0
        }
    } else {
        !a
    }
}

} // verus!
