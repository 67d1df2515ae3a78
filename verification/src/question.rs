use vstd::prelude::*;
use crate::errors::ArithmeticError;
use crate::errors::ConfigError;
use crate::numtext::dec_str;
use crate::numtext::i64_to_chars;
use crate::numtext::parse_u32;
use crate::numtext::parse_u32_spec;
use crate::operator::Operator;
use crate::operator::operate;

verus! {

/// The inclusive range both operands are drawn from.
#[derive(Copy, Clone, PartialEq, Eq, Structural, Debug)]
pub struct Bound {
    pub min: u32,
    pub max: u32,
}

impl Bound {
    /// The range is non-empty and its values fit a signed 32-bit operand.
    pub open spec fn wf(self) -> bool {
        self.min <= self.max <= 0x7fffffff
    }

    /// Builds a bound, rejecting an inverted range and a maximum too large
    /// for a signed 32-bit operand.
    pub fn new(min: u32, max: u32) -> (r: Result<Bound, ConfigError>)
        ensures
            match r {
                Ok(b) => b == (Bound { min, max }) && b.wf(),
                Err(e) => (min > max && e == ConfigError::InvertedBound) || (min <= max && max
                    > 0x7fffffff && e == ConfigError::BoundTooLarge),
            },
    {
        if min > max {
            Err(ConfigError::InvertedBound)
        } else if max > 0x7fffffffu32 {
            Err(ConfigError::BoundTooLarge)
        } else {
            Ok(Bound { min, max })
        }
    }
}

/// What reading a `min,max` bound string must yield: the text up to the
/// first comma and the text after it are each read as an unsigned decimal
/// field, and the resulting range must be well formed.
pub open spec fn parse_bound_spec(s: Seq<char>) -> Result<Bound, ConfigError> {
    match s.index_of_first(',') {
        None => Err(ConfigError::MalformedBound),
        Some(k) => {
            let mn = parse_u32_spec(s.subrange(0, k));
            let mx = parse_u32_spec(s.subrange(k + 1, s.len() as int));
            if mn is None || mx is None {
                Err(ConfigError::MalformedBound)
            } else if mn.unwrap() > mx.unwrap() {
                Err(ConfigError::InvertedBound)
            } else if mx.unwrap() > 0x7fffffff {
                Err(ConfigError::BoundTooLarge)
            } else {
                Ok(Bound { min: mn.unwrap(), max: mx.unwrap() })
            }
        },
    }
}

/// Reads a `min,max` bound string, following exactly the policy of
/// `parse_bound_spec`.
pub fn parse_bound(s: &Vec<char>) -> (r: Result<Bound, ConfigError>)
    ensures
        r == parse_bound_spec(s@),
{
    proof {
        s@.index_of_first_ensures(',');
    }
    let n = s.len();
    let mut k: usize = 0;
    while k < n && s[k] != ','
        invariant
            0 <= k <= n == s@.len(),
            forall|j: int| 0 <= j < k ==> s@[j] != ',',
        decreases n - k,
    {
        k = k + 1;
    }
    if k == n {
        proof {
            assert(!s@.contains(','));
        }
        return Err(ConfigError::MalformedBound);
    }
    proof {
        assert(s@.contains(',')) by {
            assert(s@[k as int] == ',');
        }
        assert(s@.index_of_first(',') == Some(k as int));
    }
    let mut left: Vec<char> = Vec::new();
    let mut i: usize = 0;
    while i < k
        invariant
            0 <= i <= k < n == s@.len(),
            left@ == s@.subrange(0, i as int),
        decreases k - i,
    {
        left.push(s[i]);
        proof {
            assert(left@ =~= s@.subrange(0, i + 1));
        }
        i = i + 1;
    }
    let mut right: Vec<char> = Vec::new();
    let mut j: usize = k + 1;
    while j < n
        invariant
            k + 1 <= j <= n == s@.len(),
            right@ == s@.subrange(k + 1, j as int),
        decreases n - j,
    {
        right.push(s[j]);
        proof {
            assert(right@ =~= s@.subrange(k + 1, j + 1));
        }
        j = j + 1;
    }
    let mn = match parse_u32(&left) {
        None => {
            return Err(ConfigError::MalformedBound);
        },
        Some(v) => v,
    };
    let mx = match parse_u32(&right) {
        None => {
            return Err(ConfigError::MalformedBound);
        },
        Some(v) => v,
    };
    if mn > mx {
        Err(ConfigError::InvertedBound)
    } else if mx > 0x7fffffffu32 {
        Err(ConfigError::BoundTooLarge)
    } else {
        Ok(Bound { min: mn, max: mx })
    }
}

/// The non-empty operator pool the generator draws from; repeated entries
/// weight the draw, so the order and multiplicity given are kept.
#[derive(Clone, Debug)]
pub struct AllowedOperators {
    ops: Vec<Operator>,
}

impl View for AllowedOperators {
    type V = Seq<Operator>;

    closed spec fn view(&self) -> Seq<Operator> {
        self.ops@
    }
}

impl AllowedOperators {
    /// The pool holds at least one operator.
    pub open spec fn wf(self) -> bool {
        self@.len() >= 1
    }

    /// Builds the pool from the configured operator glyphs, in order. An
    /// empty selection and an unrecognized glyph are configuration errors;
    /// the error names the first offending glyph.
    pub fn from_symbols(symbols: &Vec<char>) -> (r: Result<AllowedOperators, ConfigError>)
        ensures
            match r {
                Ok(a) => {
                    &&& a.wf()
                    &&& a@.len() == symbols@.len()
                    &&& forall|i: int|
                        0 <= i < symbols@.len()
                            ==> Operator::of_char_spec(symbols@[i]) == Some(a@[i])
                },
                Err(e) => (symbols@.len() == 0 && e == ConfigError::EmptyOperators)
                    || (exists|i: int| {
                        &&& 0 <= i < symbols@.len()
                        &&& Operator::of_char_spec(symbols@[i]) is None
                        &&& e == ConfigError::InvalidOperatorChar(symbols@[i])
                        &&& forall|j: int|
                            0 <= j < i ==> Operator::of_char_spec(symbols@[j]) is Some
                    }),
            },
    {
        let n = symbols.len();
        if n == 0 {
            return Err(ConfigError::EmptyOperators);
        }
        let mut ops: Vec<Operator> = Vec::new();
        let mut i: usize = 0;
        while i < n
            invariant
                0 <= i <= n == symbols@.len(),
                ops@.len() == i,
                forall|j: int|
                    0 <= j < i ==> Operator::of_char_spec(symbols@[j]) == Some(ops@[j]),
            decreases n - i,
        {
            match Operator::from_char(symbols[i]) {
                Ok(op) => {
                    ops.push(op);
                },
                Err(e) => {
                    return Err(e);
                },
            }
            i = i + 1;
        }
        Ok(AllowedOperators { ops })
    }

    /// How many operators the pool holds.
    pub fn len(&self) -> (n: usize)
        ensures
            n == self@.len(),
    {
        self.ops.len()
    }

    /// The operator at a position of the pool.
    pub fn op_at(&self, i: usize) -> (op: Operator)
        requires
            i < self@.len(),
        ensures
            op == self@[i as int],
    {
        self.ops[i]
    }
}

/// One drill question, immutable once generated: the answer is computed at
/// creation time and never recomputed.
#[derive(Copy, Clone, PartialEq, Eq, Structural, Debug)]
pub struct Question {
    pub operand1: i32,
    pub operand2: i32,
    pub operator: Operator,
    pub answer: i64,
}

impl Question {
    /// The stored answer is what the operator computes on the operands, and
    /// a division question never carries a zero divisor.
    pub open spec fn wf(self) -> bool {
        &&& self.answer == self.operator.eval(self.operand1 as int, self.operand2 as int)
        &&& !(self.operator == Operator::Divide && self.operand2 == 0)
    }

    /// The single asked line, `operand1 operator operand2 = `, rendered
    /// with a trailing space for the answer to follow.
    pub open spec fn prompt_spec(self) -> Seq<char> {
        dec_str(self.operand1 as int) + seq![' ', self.operator.glyph_spec(), ' '] + dec_str(
            self.operand2 as int,
        ) + seq![' ', '=', ' ']
    }

    /// Renders the asked line.
    pub fn prompt_chars(&self) -> (out: Vec<char>)
        ensures
            out@ == self.prompt_spec(),
    {
        let mut out = i64_to_chars(self.operand1 as i64);
        out.push(' ');
        out.push(self.operator.glyph());
        out.push(' ');
        let mut second = i64_to_chars(self.operand2 as i64);
        out.append(&mut second);
        out.push(' ');
        out.push('=');
        out.push(' ');
        proof {
            assert(out@ =~= self.prompt_spec());
        }
        out
    }
}

/// A one-value bound pins both operands, whatever operator is drawn: any
/// question whose operands lie in a bound with `min == max` carries that
/// one value as both operands, as `generate` guarantees of its questions.
pub proof fn lemma_singleton_bound_pins_operands(b: Bound, q: Question)
    requires
        b.wf(),
        b.min == b.max,
        b.min <= q.operand1 <= b.max,
        b.min <= q.operand2 <= b.max,
    ensures
        q.operand1 == b.min,
        q.operand2 == b.min,
{
}

/// Relies on `rand::thread_rng` and `rand::Rng::gen_range`: on the non-empty
/// range `0..n` the draw returns a value of that range; nothing more is
/// assumed of a random result.
#[verifier::external_body]
fn sample_below(n: u64) -> (r: u64)
    requires
        1 <= n,
    ensures
        r < n,
{
    rand::Rng::gen_range(&mut rand::thread_rng(), 0..n)
}

/// Draws both operands uniformly from the bound and one operator uniformly
/// from the pool, and computes the answer once. A draw of a division by
/// zero is reported as an arithmetic error rather than re-sampled, so a
/// configuration that can only draw such questions fails on every attempt
/// instead of looping.
pub fn generate(bound: Bound, allowed: &AllowedOperators) -> (r: Result<Question, ArithmeticError>)
    requires
        bound.wf(),
        allowed.wf(),
    ensures
        match r {
            Ok(q) => {
                &&& q.wf()
                &&& bound.min <= q.operand1 <= bound.max
                &&& bound.min <= q.operand2 <= bound.max
                &&& allowed@.contains(q.operator)
                &&& q.answer == q.operator.eval(q.operand1 as int, q.operand2 as int)
            },
            Err(e) => {
                &&& e == ArithmeticError::DivisionByZero
                &&& allowed@.contains(Operator::Divide)
                &&& bound.min == 0
            },
        },
        (forall|i: int| 0 <= i < allowed@.len() ==> allowed@[i] == Operator::Divide) && bound.max
            == 0 ==> r is Err,
{
    let span: u64 = (bound.max - bound.min) as u64;
    let v1: u32 = bound.min + sample_below(span + 1) as u32;
    let v2: u32 = bound.min + sample_below(span + 1) as u32;
    let x1: i32 = v1 as i32;
    let x2: i32 = v2 as i32;
    let idx64: u64 = sample_below(allowed.len() as u64);
    let idx: usize = idx64 as usize;
    let op = allowed.op_at(idx);
    proof {
        assert(allowed@.contains(op)) by {
            assert(allowed@[idx as int] == op);
        }
    }
    match operate(op, x1, x2) {
        Ok(answer) => Ok(Question { operand1: x1, operand2: x2, operator: op, answer }),
        Err(e) => Err(e),
    }
}

} // verus!
