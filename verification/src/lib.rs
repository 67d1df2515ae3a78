//! An interactive terminal arithmetic drill, split into a verified core and
//! a thin terminal front end. The core covers the four-operator arithmetic,
//! the uniform question generator, the decimal rendering and parsing of
//! answers and bounds, and the ask/answer/feedback state machine; every
//! public function carries a contract stating exactly what it returns.

mod errors;
mod numtext;
mod operator;
mod question;
mod session;

pub use errors::ArithmeticError;
pub use errors::ConfigError;
pub use numtext::dec_str;
pub use numtext::i64_to_chars;
pub use numtext::lemma_parse_dec_roundtrip;
pub use numtext::parse_i64;
pub use numtext::parse_i64_spec;
pub use numtext::parse_u32;
pub use numtext::parse_u32_spec;
pub use operator::Operator;
pub use operator::operate;
pub use operator::trunc_div;
pub use question::AllowedOperators;
pub use question::Bound;
pub use question::Question;
pub use question::generate;
pub use question::lemma_singleton_bound_pins_operands;
pub use question::parse_bound;
pub use question::parse_bound_spec;
pub use session::KeyEvent;
pub use session::KeyOutcome;
pub use session::RenderOp;
pub use session::Session;
pub use session::SessionState;
pub use session::feedback_chars;
pub use session::lemma_correct_answer_returns_to_ask;
