//! The arithmetic of the binary operations: what each one writes to its
//! destination and to the excess register, stated over the integers, and the
//! machine arithmetic that computes it.

use crate::vcpu::instruction::BinaryOp;
use crate::vcpu::machine::{signed, word};
use vstd::arithmetic::div_mod::{lemma_basic_div, lemma_fundamental_div_mod_converse};
use vstd::arithmetic::power2::{lemma2_to64, lemma_pow2_adds, lemma_pow2_pos, lemma_pow2_strictly_increases, pow2};
use vstd::bits::{lemma_u32_shr_is_div, lemma_u64_shl_is_mul};
use vstd::prelude::*;

verus! {

/// The absolute value of an integer.
pub open spec fn magnitude(x: int) -> int {
    if x < 0 {
        -x
    } else {
        x
    }
}

/// The quotient of `x` by `y`, rounded toward zero.
pub open spec fn trunc_div(x: int, y: int) -> int {
    if (x < 0) == (y < 0) {
        magnitude(x) / magnitude(y)
    } else {
        -(magnitude(x) / magnitude(y))
    }
}

/// The remainder of `x` by `y` that has the sign of `x`.
pub open spec fn trunc_rem(x: int, y: int) -> int {
    if x < 0 {
        -(magnitude(x) % magnitude(y))
    } else {
        x % magnitude(y)
    }
}

/// Two to the power of a shift count.
pub open spec fn two_to(a: u16) -> int {
    pow2(a as nat) as int
}

impl BinaryOp {
    /// The value that the operation writes to its destination, from the
    /// destination's value `b`, the source's value `a` and the excess `ex`.
    /// A test writes nothing; for it this is `b`.
    #[verifier::opaque]
    pub open spec fn result(self, b: u16, a: u16, ex: u16) -> u16 {
        match self {
            BinaryOp::SET | BinaryOp::STI | BinaryOp::STD => a,
            BinaryOp::ADD => word(b + a),
            BinaryOp::SUB => word(b - a),
            BinaryOp::MUL => word(b * a),
            BinaryOp::MLI => word(signed(b) * signed(a)),
            BinaryOp::DIV => if a == 0 {
                0
            } else {
                word(b as int / a as int)
            },
            BinaryOp::DVI => if a == 0 {
                0
            } else {
                word(trunc_div(signed(b), signed(a)))
            },
            BinaryOp::MOD => if a == 0 {
                0
            } else {
                word(b as int % a as int)
            },
            BinaryOp::MDI => if a == 0 {
                0
            } else {
                word(trunc_rem(signed(b), signed(a)))
            },
            BinaryOp::AND => b & a,
            BinaryOp::BOR => b | a,
            BinaryOp::XOR => b ^ a,
            BinaryOp::SHR => word(b as int / two_to(a)),
            BinaryOp::ASR => word(signed(b) / two_to(a)),
            BinaryOp::SHL => word(b * two_to(a)),
            BinaryOp::ADX => word(b + a + ex),
            BinaryOp::SBX => word(b - a + ex),
            _ => b,
        }
    }

    /// The value of the excess register after the operation. The operations
    /// that do not define it leave it as it was.
    #[verifier::opaque]
    pub open spec fn excess(self, b: u16, a: u16, ex: u16) -> u16 {
        match self {
            BinaryOp::ADD => if b + a > 0xFFFF {
                1
            } else {
                0
            },
            BinaryOp::SUB => if b < a {
                0xFFFF
            } else {
                0
            },
            BinaryOp::MUL => word((b * a) / 0x10000),
            BinaryOp::MLI => word((signed(b) * signed(a)) / 0x10000),
            BinaryOp::DIV => if a == 0 {
                0
            } else {
                word((b * 0x10000) / (a as int))
            },
            BinaryOp::DVI => if a == 0 {
                0
            } else {
                word(trunc_div(signed(b) * 0x10000, signed(a)))
            },
            BinaryOp::SHR => word((b * 0x10000) / two_to(a)),
            BinaryOp::ASR => word((signed(b) * 0x10000) / two_to(a)),
            BinaryOp::SHL => word((b * two_to(a)) / 0x10000),
            BinaryOp::ADX => if b + a + ex > 0xFFFF {
                1
            } else {
                0
            },
            BinaryOp::SBX => if b - a + ex < 0 {
                0xFFFF
            } else {
                0
            },
            _ => ex,
        }
    }

    /// Whether the operation defines the excess register: the arithmetic
    /// operations that can overflow, and the shifts.
    pub open spec fn defines_excess(self) -> bool {
        match self {
            BinaryOp::ADD
            | BinaryOp::SUB
            | BinaryOp::MUL
            | BinaryOp::MLI
            | BinaryOp::DIV
            | BinaryOp::DVI
            | BinaryOp::SHR
            | BinaryOp::ASR
            | BinaryOp::SHL
            | BinaryOp::ADX
            | BinaryOp::SBX => true,
            _ => false,
        }
    }

    /// Whether a test lets the next instruction run. Of an operation that is
    /// no test this is `true`.
    pub open spec fn holds(self, b: u16, a: u16) -> bool {
        match self {
            BinaryOp::IFB => b & a != 0,
            BinaryOp::IFC => b & a == 0,
            BinaryOp::IFE => b == a,
            BinaryOp::IFN => b != a,
            BinaryOp::IFG => b > a,
            BinaryOp::IFA => signed(b) > signed(a),
            BinaryOp::IFL => b < a,
            BinaryOp::IFU => signed(b) < signed(a),
            _ => true,
        }
    }
}

/// An operation that does not define the excess register leaves it as it
/// was.
pub proof fn lemma_excess_kept(op: BinaryOp, b: u16, a: u16, ex: u16)
    requires
        !op.defines_excess(),
    ensures
        op.excess(b, a, ex) == ex,
{
    reveal(BinaryOp::excess);
}

/// What an arithmetic operation yields: the value for the destination and
/// the new excess.
#[derive(Clone, Copy, Debug, PartialEq, Eq, Structural)]
pub struct Outcome {
    pub value: u16,
    pub excess: u16,
}

/// The signed reading of a word.
pub fn to_signed(x: u16) -> (s: i32)
    ensures
        s == signed(x),
        -0x8000 <= s < 0x8000,
{
    if x < 0x8000 {
        x as i32
    } else {
        x as i32 - 0x10000
    }
}

/// The size of the signed reading of a word.
fn magnitude_of(x: u16) -> (n: u32)
    ensures
        n == magnitude(signed(x)),
        n <= 0x8000,
{
    if x < 0x8000 {
        x as u32
    } else {
        0x10000 - x as u32
    }
}

/// The word that stands for `-n`.
fn negated(n: u64) -> (w: u16)
    ensures
        w == word(-(n as int)),
{
    let low: u64 = n % 0x10000;
    if low == 0 {
        0
    } else {
        (0x10000 - low) as u16
    }
}

/// The word that stands for `n`, or for `-n` where `negative` is set.
fn with_sign(n: u64, negative: bool) -> (w: u16)
    ensures
        w == word(if negative { -(n as int) } else { n as int }),
{
    if negative {
        negated(n)
    } else {
        (n % 0x10000) as u16
    }
}

/// ADD.
fn sum(b: u16, a: u16) -> (r: Outcome)
    ensures
        r.value == BinaryOp::ADD.result(b, a, 0),
        r.excess == BinaryOp::ADD.excess(b, a, 0),
{
    reveal(BinaryOp::result);
    reveal(BinaryOp::excess);
    let total: u32 = b as u32 + a as u32;
    Outcome { value: (total % 0x10000) as u16, excess: if total > 0xFFFF { 1 } else { 0 } }
}

/// SUB.
fn difference(b: u16, a: u16) -> (r: Outcome)
    ensures
        r.value == BinaryOp::SUB.result(b, a, 0),
        r.excess == BinaryOp::SUB.excess(b, a, 0),
{
    reveal(BinaryOp::result);
    reveal(BinaryOp::excess);
    Outcome { value: b.wrapping_sub(a), excess: if b < a { 0xFFFF } else { 0 } }
}

/// ADX.
fn sum_with_excess(b: u16, a: u16, ex: u16) -> (r: Outcome)
    ensures
        r.value == BinaryOp::ADX.result(b, a, ex),
        r.excess == BinaryOp::ADX.excess(b, a, ex),
{
    reveal(BinaryOp::result);
    reveal(BinaryOp::excess);
    let total: u32 = b as u32 + a as u32 + ex as u32;
    Outcome { value: (total % 0x10000) as u16, excess: if total > 0xFFFF { 1 } else { 0 } }
}

/// SBX.
fn difference_with_excess(b: u16, a: u16, ex: u16) -> (r: Outcome)
    ensures
        r.value == BinaryOp::SBX.result(b, a, ex),
        r.excess == BinaryOp::SBX.excess(b, a, ex),
{
    reveal(BinaryOp::result);
    reveal(BinaryOp::excess);
    let lifted: u32 = 0x10000 + b as u32 + ex as u32 - a as u32;
    Outcome {
        value: (lifted % 0x10000) as u16,
        excess: if lifted < 0x10000 { 0xFFFF } else { 0 },
    }
}

/// MUL.
fn product(b: u16, a: u16) -> (r: Outcome)
    ensures
        r.value == BinaryOp::MUL.result(b, a, 0),
        r.excess == BinaryOp::MUL.excess(b, a, 0),
{
    reveal(BinaryOp::result);
    reveal(BinaryOp::excess);
    assert(0 <= b * a <= 0xFFFF * 0xFFFF) by (nonlinear_arith)
        requires
            0 <= b <= 0xFFFF,
            0 <= a <= 0xFFFF,
    ;
    let wide: u32 = b as u32 * a as u32;
    Outcome { value: (wide % 0x10000) as u16, excess: (wide / 0x10000) as u16 }
}

/// MLI.
fn signed_product(b: u16, a: u16) -> (r: Outcome)
    ensures
        r.value == BinaryOp::MLI.result(b, a, 0),
        r.excess == BinaryOp::MLI.excess(b, a, 0),
{
    reveal(BinaryOp::result);
    reveal(BinaryOp::excess);
    let sb: i64 = to_signed(b) as i64;
    let sa: i64 = to_signed(a) as i64;
    assert(-0x4000_0000 <= sb * sa <= 0x4000_0000) by (nonlinear_arith)
        requires
            -0x8000 <= sb <= 0x8000,
            -0x8000 <= sa <= 0x8000,
    ;
    let lifted: u64 = (sb * sa + 0x1_0000_0000) as u64;
    Outcome {
        value: (lifted % 0x10000) as u16,
        excess: ((lifted / 0x10000) % 0x10000) as u16,
    }
}

/// DIV.
fn quotient(b: u16, a: u16) -> (r: Outcome)
    ensures
        r.value == BinaryOp::DIV.result(b, a, 0),
        r.excess == BinaryOp::DIV.excess(b, a, 0),
{
    reveal(BinaryOp::result);
    reveal(BinaryOp::excess);
    if a == 0 {
        Outcome { value: 0, excess: 0 }
    } else {
        let wide: u32 = b as u32 * 0x10000;
        Outcome { value: b / a, excess: ((wide / a as u32) % 0x10000) as u16 }
    }
}

/// MOD.
fn remainder(b: u16, a: u16) -> (value: u16)
    ensures
        value == BinaryOp::MOD.result(b, a, 0),
{
    reveal(BinaryOp::result);
    if a == 0 {
        0
    } else {
        b % a
    }
}

/// DVI.
fn signed_quotient(b: u16, a: u16) -> (r: Outcome)
    ensures
        r.value == BinaryOp::DVI.result(b, a, 0),
        r.excess == BinaryOp::DVI.excess(b, a, 0),
{
    reveal(BinaryOp::result);
    reveal(BinaryOp::excess);
    if a == 0 {
        Outcome { value: 0, excess: 0 }
    } else {
        let nb: u32 = magnitude_of(b);
        let na: u32 = magnitude_of(a);
        let negative: bool = (b >= 0x8000) != (a >= 0x8000);
        Outcome {
            value: with_sign((nb / na) as u64, negative),
            excess: with_sign(((nb * 0x10000) / na) as u64, negative),
        }
    }
}

/// MDI.
fn signed_remainder(b: u16, a: u16) -> (value: u16)
    ensures
        value == BinaryOp::MDI.result(b, a, 0),
{
    reveal(BinaryOp::result);
    if a == 0 {
        0
    } else {
        let nb: u32 = magnitude_of(b);
        let na: u32 = magnitude_of(a);
        with_sign((nb % na) as u64, b >= 0x8000)
    }
}

/// A shift count of 32 or more reaches past every bit of a word and of its
/// excess.
proof fn lemma_two_to_large(a: u16)
    requires
        a >= 32,
    ensures
        two_to(a) >= 0x1_0000_0000,
        two_to(a) == 0x1_0000_0000 * two_to((a - 32) as u16),
        two_to((a - 32) as u16) >= 1,
{
    lemma2_to64();
    lemma_pow2_adds(32, (a - 32) as nat);
    lemma_pow2_pos((a - 32) as nat);
    assert(0x1_0000_0000 * two_to((a - 32) as u16) >= 0x1_0000_0000) by (nonlinear_arith)
        requires
            two_to((a - 32) as u16) >= 1,
    ;
}

/// A shift count below 32 is a power of two of at most 31 bits.
proof fn lemma_two_to_small(a: u16)
    requires
        a < 32,
    ensures
        1 <= two_to(a) <= 0x8000_0000,
{
    lemma2_to64();
    lemma_pow2_pos(a as nat);
    if a < 31 {
        lemma_pow2_strictly_increases(a as nat, 31);
    }
}

/// Rounding a negative quotient down is rounding the positive one up.
proof fn lemma_floor_of_negative(n: int, p: int)
    requires
        0 <= n,
        0 < p,
    ensures
        (-n) / p == -((n + p - 1) / p),
{
    let q = (n + p - 1) / p;
    let r = (n + p - 1) % p;
    assert(n + p - 1 == p * q + r && 0 <= r < p) by (nonlinear_arith)
        requires
            q == (n + p - 1) / p,
            r == (n + p - 1) % p,
            0 < p,
    ;
    assert(-n == (-q) * p + (p - 1 - r)) by (nonlinear_arith)
        requires
            n + p - 1 == p * q + r,
    ;
    lemma_fundamental_div_mod_converse(-n, p, -q, p - 1 - r);
}

/// SHR.
fn shift_right(b: u16, a: u16) -> (r: Outcome)
    ensures
        r.value == BinaryOp::SHR.result(b, a, 0),
        r.excess == BinaryOp::SHR.excess(b, a, 0),
{
    reveal(BinaryOp::result);
    reveal(BinaryOp::excess);
    if a >= 32 {
        proof {
            lemma_two_to_large(a);
            lemma_basic_div(b as int, two_to(a));
            lemma_basic_div(b * 0x10000, two_to(a));
        }
        Outcome { value: 0, excess: 0 }
    } else {
        let narrow: u32 = b as u32;
        let wide: u32 = b as u32 * 0x10000;
        let count: u32 = a as u32;
        proof {
            lemma_u32_shr_is_div(narrow, count);
            lemma_u32_shr_is_div(wide, count);
        }
        Outcome {
            value: ((narrow >> count) % 0x10000) as u16,
            excess: ((wide >> count) % 0x10000) as u16,
        }
    }
}

/// SHL.
fn shift_left(b: u16, a: u16) -> (r: Outcome)
    ensures
        r.value == BinaryOp::SHL.result(b, a, 0),
        r.excess == BinaryOp::SHL.excess(b, a, 0),
{
    reveal(BinaryOp::result);
    reveal(BinaryOp::excess);
    if a >= 32 {
        proof {
            lemma_two_to_large(a);
            let k = b * two_to((a - 32) as u16);
            assert(b * two_to(a) == (0x10000 * k) * 0x10000) by (nonlinear_arith)
                requires
                    two_to(a) == 0x1_0000_0000 * two_to((a - 32) as u16),
                    k == b * two_to((a - 32) as u16),
            ;
        }
        Outcome { value: 0, excess: 0 }
    } else {
        let narrow: u64 = b as u64;
        let count: u64 = a as u64;
        proof {
            lemma_two_to_small(a);
            assert(narrow * two_to(a) <= 0xFFFF * 0x8000_0000) by (nonlinear_arith)
                requires
                    0 <= narrow <= 0xFFFF,
                    1 <= two_to(a) <= 0x8000_0000,
            ;
            lemma_u64_shl_is_mul(narrow, count);
        }
        let wide: u64 = narrow << count;
        Outcome {
            value: (wide % 0x10000) as u16,
            excess: ((wide / 0x10000) % 0x10000) as u16,
        }
    }
}

/// ASR.
fn arithmetic_shift_right(b: u16, a: u16) -> (r: Outcome)
    ensures
        r.value == BinaryOp::ASR.result(b, a, 0),
        r.excess == BinaryOp::ASR.excess(b, a, 0),
{
    reveal(BinaryOp::result);
    reveal(BinaryOp::excess);
    if b < 0x8000 {
        shift_right(b, a)
    } else {
        let n: u64 = 0x10000 - b as u64;
        if a >= 32 {
            proof {
                let p = two_to(a);
                lemma_two_to_large(a);
                lemma_floor_of_negative(n as int, p);
                lemma_floor_of_negative(n * 0x10000, p);
                lemma_fundamental_div_mod_converse(n + p - 1, p, 1, n - 1);
                lemma_fundamental_div_mod_converse(n * 0x10000 + p - 1, p, 1, n * 0x10000 - 1);
            }
            Outcome { value: 0xFFFF, excess: 0xFFFF }
        } else {
            let count: u64 = a as u64;
            proof {
                lemma_two_to_small(a);
                lemma_u64_shl_is_mul(1, count);
                lemma_floor_of_negative(n as int, two_to(a));
                lemma_floor_of_negative(n * 0x10000, two_to(a));
            }
            let p: u64 = 1u64 << count;
            Outcome {
                value: negated((n + p - 1) / p),
                excess: negated((n * 0x10000 + p - 1) / p),
            }
        }
    }
}

/// Whether a test lets the next instruction run.
pub fn condition_holds(op: BinaryOp, b: u16, a: u16) -> (holds: bool)
    ensures
        holds == op.holds(b, a),
{
    match op {
        BinaryOp::IFB => b & a != 0,
        BinaryOp::IFC => b & a == 0,
        BinaryOp::IFE => b == a,
        BinaryOp::IFN => b != a,
        BinaryOp::IFG => b > a,
        BinaryOp::IFA => to_signed(b) > to_signed(a),
        BinaryOp::IFL => b < a,
        BinaryOp::IFU => to_signed(b) < to_signed(a),
        _ => true,
    }
}

/// Computes what an operation writes to its destination and to the excess
/// register.
pub fn compute(op: BinaryOp, b: u16, a: u16, ex: u16) -> (r: Outcome)
    ensures
        r.value == op.result(b, a, ex),
        r.excess == op.excess(b, a, ex),
{
    reveal(BinaryOp::result);
    reveal(BinaryOp::excess);
    match op {
        BinaryOp::SET | BinaryOp::STI | BinaryOp::STD => Outcome { value: a, excess: ex },
        BinaryOp::ADD => sum(b, a),
        BinaryOp::SUB => difference(b, a),
        BinaryOp::MUL => product(b, a),
        BinaryOp::MLI => signed_product(b, a),
        BinaryOp::DIV => quotient(b, a),
        BinaryOp::DVI => signed_quotient(b, a),
        BinaryOp::MOD => Outcome { value: remainder(b, a), excess: ex },
        BinaryOp::MDI => Outcome { value: signed_remainder(b, a), excess: ex },
        BinaryOp::AND => Outcome { value: b & a, excess: ex },
        BinaryOp::BOR => Outcome { value: b | a, excess: ex },
        BinaryOp::XOR => Outcome { value: b ^ a, excess: ex },
        BinaryOp::SHR => shift_right(b, a),
        BinaryOp::ASR => arithmetic_shift_right(b, a),
        BinaryOp::SHL => shift_left(b, a),
        BinaryOp::ADX => sum_with_excess(b, a, ex),
        BinaryOp::SBX => difference_with_excess(b, a, ex),
        _ => Outcome { value: b, excess: ex },
    }
}

} // verus!
