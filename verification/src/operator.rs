use vstd::prelude::*;
use crate::errors::ArithmeticError;
use crate::errors::ConfigError;

verus! {

/// Integer division truncating toward zero, as the drill's division
/// questions use it; the quotient for a zero divisor is never consulted.
pub open spec fn trunc_div(a: int, b: int) -> int {
    if b == 0 {
        0
    } else {
        let q = (vstd::math::abs(a) as int) / (vstd::math::abs(b) as int);
        if (a < 0) != (b < 0) {
            -q
        } else {
            q
        }
    }
}

/// One of the four arithmetic operators a drill question may use.
#[derive(Copy, Clone, PartialEq, Eq, Structural, Debug)]
pub enum Operator {
    Add,
    Subtract,
    Multiply,
    Divide,
}

impl Operator {
    /// The display glyph of this operator.
    pub open spec fn glyph_spec(self) -> char {
        match self {
            Operator::Add => '+',
            Operator::Subtract => '-',
            Operator::Multiply => '*',
            Operator::Divide => '/',
        }
    }

    /// Returns the glyph used to render this operator.
    pub fn glyph(self) -> (c: char)
        ensures
            c == self.glyph_spec(),
    {
        match self {
            Operator::Add => '+',
            Operator::Subtract => '-',
            Operator::Multiply => '*',
            Operator::Divide => '/',
        }
    }

    /// What this operator computes on a pair of integers: sum, difference,
    /// product, or quotient truncated toward zero.
    pub open spec fn eval(self, a: int, b: int) -> int {
        match self {
            Operator::Add => a + b,
            Operator::Subtract => a - b,
            Operator::Multiply => a * b,
            Operator::Divide => trunc_div(a, b),
        }
    }

    /// The operator written with the given glyph, if it is one of `+ - * /`.
    pub open spec fn of_char_spec(c: char) -> Option<Operator> {
        match c {
            '+' => Some(Operator::Add),
            '-' => Some(Operator::Subtract),
            '*' => Some(Operator::Multiply),
            '/' => Some(Operator::Divide),
            _ => None,
        }
    }

    /// Recognizes exactly the four glyphs `+ - * /`; any other character is
    /// a configuration error, not a silent default.
    pub fn from_char(c: char) -> (r: Result<Operator, ConfigError>)
        ensures
            match r {
                Ok(op) => Self::of_char_spec(c) == Some(op),
                Err(e) => Self::of_char_spec(c) is None && e == ConfigError::InvalidOperatorChar(c),
            },
    {
        match c {
            '+' => Ok(Operator::Add),
            '-' => Ok(Operator::Subtract),
            '*' => Ok(Operator::Multiply),
            '/' => Ok(Operator::Divide),
            _ => Err(ConfigError::InvalidOperatorChar(c)),
        }
    }
}

/// Applies `op` to the operands. Every pair of 32-bit operands is evaluable:
/// the 64-bit result cannot overflow, and a zero divisor is reported as an
/// arithmetic error rather than an undefined quotient.
pub fn operate(op: Operator, x1: i32, x2: i32) -> (r: Result<i64, ArithmeticError>)
    ensures
        match r {
            Ok(v) => !(op == Operator::Divide && x2 == 0) && v == op.eval(x1 as int, x2 as int),
            Err(e) => op == Operator::Divide && x2 == 0 && e == ArithmeticError::DivisionByZero,
        },
{
    match op {
        Operator::Add => Ok(x1 as i64 + x2 as i64),
        Operator::Subtract => Ok(x1 as i64 - x2 as i64),
        Operator::Multiply => {
            proof {
                assert((x1 as int) * (x2 as int) <= 0x4000000000000000
                    && (x1 as int) * (x2 as int) >= -0x4000000000000000) by (nonlinear_arith)
                    requires
                        -0x80000000 <= x1 as int <= 0x7fffffff,
                        -0x80000000 <= x2 as int <= 0x7fffffff,
                {}
            }
            Ok(x1 as i64 * x2 as i64)
        },
        Operator::Divide => {
            if x2 == 0 {
                Err(ArithmeticError::DivisionByZero)
            } else {
                Ok(trunc_div_i32(x1, x2))
            }
        },
    }
}

/// Division of 32-bit operands truncating toward zero, computed on the
/// magnitudes so that the sign handling is explicit.
fn trunc_div_i32(a: i32, b: i32) -> (r: i64)
    requires
        b != 0,
    ensures
        r == trunc_div(a as int, b as int),
{
    let ua: u64 = if a < 0 { (-(a as i64)) as u64 } else { a as u64 };
    let ub: u64 = if b < 0 { (-(b as i64)) as u64 } else { b as u64 };
    proof {
        assert(ua == vstd::math::abs(a as int));
        assert(ub == vstd::math::abs(b as int));
        vstd::arithmetic::div_mod::lemma_div_basics_4(ua as int, ub as int);
        vstd::arithmetic::div_mod::lemma_div_basics_5(ua as int, ub as int);
    }
    let q: u64 = ua / ub;
    if (a < 0) != (b < 0) {
        -(q as i64)
    } else {
        q as i64
    }
}

} // verus!
