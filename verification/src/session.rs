use vstd::prelude::*;
use crate::errors::ArithmeticError;
use crate::numtext::dec_str;
use crate::numtext::i64_to_chars;
use crate::numtext::parse_i64;
use crate::numtext::parse_i64_spec;
use crate::operator::Operator;
use crate::question::AllowedOperators;
use crate::question::Bound;
use crate::question::Question;
use crate::question::generate;

verus! {

/// Where the drill stands: about to ask, awaiting an answer, or about to
/// report a wrong answer.
#[derive(Copy, Clone, PartialEq, Eq, Structural, Debug)]
pub enum SessionState {
    Ask,
    Answer,
    Incorrect,
}

/// The event vocabulary the state machine consumes; every raw key the
/// terminal delivers maps to one of these.
#[derive(Copy, Clone, PartialEq, Eq, Structural, Debug)]
pub enum KeyEvent {
    Char(char),
    Enter,
    Backspace,
    Escape,
    Other,
}

/// A full line to draw at the anchor, after clearing the current line.
#[derive(Clone, PartialEq, Eq, Debug)]
pub enum RenderOp {
    /// The asked line, `operand1 operator operand2 = `.
    Prompt(Vec<char>),
    /// The report line, `Incorrect! Answer: ` followed by the answer.
    Feedback(Vec<char>),
}

/// What the renderer must do after one key is consumed.
#[derive(Copy, Clone, PartialEq, Eq, Structural, Debug)]
pub enum KeyOutcome {
    /// Nothing to draw.
    Continue,
    /// Echo the one appended character at the cursor.
    Echo(char),
    /// Erase the one rendered column the backspace removed.
    Erase,
    /// Escape was pressed: leave the loop.
    Exit,
}

/// The fixed text of the report line, before the correct answer.
pub open spec fn feedback_prefix() -> Seq<char> {
    seq![
        'I',
        'n',
        'c',
        'o',
        'r',
        'r',
        'e',
        'c',
        't',
        '!',
        ' ',
        'A',
        'n',
        's',
        'w',
        'e',
        'r',
        ':',
        ' ',
    ]
}

/// The report line shown for a wrong answer: the fixed text, then the
/// correct answer in decimal.
pub open spec fn feedback_spec(answer: int) -> Seq<char> {
    feedback_prefix() + dec_str(answer)
}

/// Renders the report line for a wrong answer.
pub fn feedback_chars(answer: i64) -> (out: Vec<char>)
    ensures
        out@ == feedback_spec(answer as int),
{
    let mut out: Vec<char> = Vec::new();
    out.push('I');
    out.push('n');
    out.push('c');
    out.push('o');
    out.push('r');
    out.push('r');
    out.push('e');
    out.push('c');
    out.push('t');
    out.push('!');
    out.push(' ');
    out.push('A');
    out.push('n');
    out.push('s');
    out.push('w');
    out.push('e');
    out.push('r');
    out.push(':');
    out.push(' ');
    let mut digits = i64_to_chars(answer);
    out.append(&mut digits);
    proof {
        assert(out@ =~= feedback_spec(answer as int));
    }
    out
}

/// The whole drill context the loop owns: configuration, the current
/// question, the in-progress answer and the state of the machine.
pub struct Session {
    pub bound: Bound,
    pub allowed: AllowedOperators,
    pub state: SessionState,
    pub question: Question,
    pub buffer: Vec<char>,
}

impl Session {
    /// The configuration is usable and the current question carries the
    /// answer its operator computes.
    pub open spec fn wf(self) -> bool {
        &&& self.bound.wf()
        &&& self.allowed.wf()
        &&& self.question.wf()
    }

    /// A fresh session, about to ask its first question.
    pub fn new(bound: Bound, allowed: AllowedOperators) -> (s: Session)
        requires
            bound.wf(),
            allowed.wf(),
        ensures
            s.wf(),
            s.bound == bound,
            s.allowed == allowed,
            s.state == SessionState::Ask,
            s.buffer@ == Seq::<char>::empty(),
            s.question == (Question {
                operand1: 0,
                operand2: 0,
                operator: Operator::Add,
                answer: 0,
            }),
    {
        Session {
            bound,
            allowed,
            state: SessionState::Ask,
            question: Question { operand1: 0, operand2: 0, operator: Operator::Add, answer: 0 },
            buffer: Vec::new(),
        }
    }

    /// The entry action of the current state, run once per loop iteration
    /// before the next key is read. On Ask it generates a new question,
    /// clears the buffer, moves to Answer and hands back the prompt line;
    /// on Incorrect it hands back the report line and moves to Ask so the
    /// next iteration asks again; while awaiting input there is nothing to
    /// do. A division question that drew a zero divisor is a fatal
    /// arithmetic error and leaves the session unchanged.
    pub fn advance(&mut self) -> (r: Result<Option<RenderOp>, ArithmeticError>)
        requires
            old(self).wf(),
        ensures
            final(self).wf(),
            final(self).bound == old(self).bound,
            final(self).allowed == old(self).allowed,
            match r {
                Ok(opt) => match old(self).state {
                    SessionState::Ask => {
                        &&& final(self).state == SessionState::Answer
                        &&& final(self).buffer@ == Seq::<char>::empty()
                        &&& old(self).bound.min <= final(self).question.operand1 <= old(self).bound.max
                        &&& old(self).bound.min <= final(self).question.operand2 <= old(self).bound.max
                        &&& old(self).allowed@.contains(final(self).question.operator)
                        &&& (opt matches Some(RenderOp::Prompt(p)) && p@ == final(self).question.prompt_spec())
                    },
                    SessionState::Incorrect => {
                        &&& final(self).state == SessionState::Ask
                        &&& final(self).buffer@ == old(self).buffer@
                        &&& final(self).question == old(self).question
                        &&& (opt matches Some(RenderOp::Feedback(f)) && f@ == feedback_spec(old(self).question.answer as int))
                    },
                    SessionState::Answer => {
                        &&& final(self).state == old(self).state
                        &&& final(self).buffer@ == old(self).buffer@
                        &&& final(self).question == old(self).question
                        &&& opt is None
                    },
                },
                Err(e) => {
                    &&& old(self).state == SessionState::Ask
                    &&& e == ArithmeticError::DivisionByZero
                    &&& old(self).allowed@.contains(Operator::Divide)
                    &&& old(self).bound.min == 0
                    &&& final(self).state == old(self).state
                    &&& final(self).buffer@ == old(self).buffer@
                    &&& final(self).question == old(self).question
                },
            },
            old(self).state == SessionState::Ask && (forall|i: int|
                0 <= i < old(self).allowed@.len() ==> old(self).allowed@[i] == Operator::Divide)
                && old(self).bound.max == 0 ==> r is Err,
    {
        match self.state {
            SessionState::Ask => {
                match generate(self.bound, &self.allowed) {
                    Ok(q) => {
                        self.question = q;
                        self.buffer = Vec::new();
                        self.state = SessionState::Answer;
                        Ok(Some(RenderOp::Prompt(self.question.prompt_chars())))
                    },
                    Err(e) => Err(e),
                }
            },
            SessionState::Incorrect => {
                self.state = SessionState::Ask;
                Ok(Some(RenderOp::Feedback(feedback_chars(self.question.answer))))
            },
            SessionState::Answer => Ok(None),
        }
    }

    /// Consumes one key event. Escape ends the session from any state.
    /// While an answer is awaited, a character key extends the buffer and
    /// is echoed, a backspace drops the last buffered character and erases
    /// its column (nothing happens on an empty buffer), and Enter moves to
    /// Ask when the buffer parses to exactly the question's answer and to
    /// Incorrect otherwise. In any other state every key but Escape is
    /// ignored.
    pub fn handle_key(&mut self, key: KeyEvent) -> (r: KeyOutcome)
        requires
            old(self).wf(),
        ensures
            final(self).wf(),
            final(self).bound == old(self).bound,
            final(self).allowed == old(self).allowed,
            final(self).question == old(self).question,
            key == KeyEvent::Escape ==> {
                &&& r == KeyOutcome::Exit
                &&& final(self).state == old(self).state
                &&& final(self).buffer@ == old(self).buffer@
            },
            key != KeyEvent::Escape && old(self).state != SessionState::Answer ==> {
                &&& r == KeyOutcome::Continue
                &&& final(self).state == old(self).state
                &&& final(self).buffer@ == old(self).buffer@
            },
            old(self).state == SessionState::Answer ==> match key {
                KeyEvent::Char(c) => {
                    &&& r == KeyOutcome::Echo(c)
                    &&& final(self).state == SessionState::Answer
                    &&& final(self).buffer@ == old(self).buffer@.push(c)
                },
                KeyEvent::Backspace => {
                    &&& final(self).state == SessionState::Answer
                    &&& (old(self).buffer@.len() == 0 ==> r == KeyOutcome::Continue && final(self).buffer@ == old(self).buffer@)
                    &&& (old(self).buffer@.len() > 0 ==> r == KeyOutcome::Erase && final(self).buffer@ == old(self).buffer@.drop_last())
                },
                KeyEvent::Enter => {
                    &&& r == KeyOutcome::Continue
                    &&& final(self).buffer@ == old(self).buffer@
                    &&& final(self).state == (if parse_i64_spec(old(self).buffer@) == Some(
                        old(self).question.answer as int,
                    ) {
                        SessionState::Ask
                    } else {
                        SessionState::Incorrect
                    })
                },
                KeyEvent::Other => {
                    &&& r == KeyOutcome::Continue
                    &&& final(self).state == old(self).state
                    &&& final(self).buffer@ == old(self).buffer@
                },
                KeyEvent::Escape => true,
            },
    {
        match key {
            KeyEvent::Escape => KeyOutcome::Exit,
            KeyEvent::Char(c) => {
                if self.state == SessionState::Answer {
                    self.buffer.push(c);
                    KeyOutcome::Echo(c)
                } else {
                    KeyOutcome::Continue
                }
            },
            KeyEvent::Enter => {
                if self.state == SessionState::Answer {
                    let parsed = parse_i64(&self.buffer);
                    self.state = match parsed {
                        Some(v) => if v == self.question.answer {
                            SessionState::Ask
                        } else {
                            SessionState::Incorrect
                        },
                        None => SessionState::Incorrect,
                    };
                }
                KeyOutcome::Continue
            },
            KeyEvent::Backspace => {
                if self.state == SessionState::Answer {
                    if self.buffer.len() > 0 {
                        self.buffer.pop();
                        proof {
                            assert(self.buffer@ =~= old(self).buffer@.drop_last());
                        }
                        KeyOutcome::Erase
                    } else {
                        KeyOutcome::Continue
                    }
                } else {
                    KeyOutcome::Continue
                }
            },
            KeyEvent::Other => KeyOutcome::Continue,
        }
    }
}

/// Submitting the exact correct integer always returns the drill to Ask:
/// the canonical decimal rendering of the current question's answer parses
/// back to that answer, so `handle_key` on Enter moves to Ask whenever the
/// buffer holds exactly that rendering.
pub proof fn lemma_correct_answer_returns_to_ask(s: Session)
    requires
        s.wf(),
        s.state == SessionState::Answer,
        s.buffer@ == dec_str(s.question.answer as int),
    ensures
        parse_i64_spec(s.buffer@) == Some(s.question.answer as int),
{
    crate::numtext::lemma_parse_dec_roundtrip(s.question.answer);
}

} // verus!
