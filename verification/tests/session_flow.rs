use menth::AllowedOperators;
use menth::Bound;
use menth::KeyEvent;
use menth::KeyOutcome;
use menth::RenderOp;
use menth::Session;
use menth::SessionState;
use menth::feedback_chars;

fn cs(s: &str) -> Vec<char> {
    s.chars().collect()
}

fn one_plus_one_session() -> Session {
    let bound = Bound::new(1, 1).unwrap();
    let ops = AllowedOperators::from_symbols(&cs("+")).unwrap();
    Session::new(bound, ops)
}

fn type_line(s: &mut Session, text: &str) {
    for c in text.chars() {
        assert_eq!(s.handle_key(KeyEvent::Char(c)), KeyOutcome::Echo(c));
    }
    assert_eq!(s.handle_key(KeyEvent::Enter), KeyOutcome::Continue);
}

#[test]
fn ask_renders_prompt_and_awaits_answer() {
    let mut s = one_plus_one_session();
    assert_eq!(s.state, SessionState::Ask);
    match s.advance() {
        Ok(Some(RenderOp::Prompt(p))) => assert_eq!(p, cs("1 + 1 = ")),
        _ => panic!("expected a prompt"),
    }
    assert_eq!(s.state, SessionState::Answer);
    assert!(s.buffer.is_empty());
}

#[test]
fn correct_answer_returns_to_ask() {
    let mut s = one_plus_one_session();
    s.advance().unwrap();
    type_line(&mut s, "2");
    assert_eq!(s.state, SessionState::Ask);
}

#[test]
fn correct_answer_with_plus_sign_and_leading_zero_also_passes() {
    // The documented parse policy tolerates a leading `+` and leading
    // zeros, so these renderings of 2 are correct answers too.
    for text in ["+2", "02", "002"] {
        let mut s = one_plus_one_session();
        s.advance().unwrap();
        type_line(&mut s, text);
        assert_eq!(s.state, SessionState::Ask);
    }
}

#[test]
fn wrong_answer_shows_the_correct_one() {
    let mut s = one_plus_one_session();
    s.advance().unwrap();
    type_line(&mut s, "3");
    assert_eq!(s.state, SessionState::Incorrect);
    match s.advance() {
        Ok(Some(RenderOp::Feedback(f))) => assert_eq!(f, cs("Incorrect! Answer: 2")),
        _ => panic!("expected feedback"),
    }
    assert_eq!(s.state, SessionState::Ask);
}

#[test]
fn unparseable_answer_counts_as_incorrect() {
    let mut s = one_plus_one_session();
    s.advance().unwrap();
    type_line(&mut s, "abc");
    assert_eq!(s.state, SessionState::Incorrect);
    let mut t = one_plus_one_session();
    t.advance().unwrap();
    assert_eq!(t.handle_key(KeyEvent::Enter), KeyOutcome::Continue);
    assert_eq!(t.state, SessionState::Incorrect);
}

#[test]
fn buffer_edits_round_trip() {
    let mut s = one_plus_one_session();
    s.advance().unwrap();
    assert_eq!(s.handle_key(KeyEvent::Char('1')), KeyOutcome::Echo('1'));
    assert_eq!(s.handle_key(KeyEvent::Char('2')), KeyOutcome::Echo('2'));
    assert_eq!(s.handle_key(KeyEvent::Backspace), KeyOutcome::Erase);
    assert_eq!(s.handle_key(KeyEvent::Char('3')), KeyOutcome::Echo('3'));
    assert_eq!(s.buffer, cs("13"));
}

#[test]
fn backspace_on_empty_buffer_does_nothing() {
    let mut s = one_plus_one_session();
    s.advance().unwrap();
    assert_eq!(s.handle_key(KeyEvent::Backspace), KeyOutcome::Continue);
    assert!(s.buffer.is_empty());
    assert_eq!(s.state, SessionState::Answer);
}

#[test]
fn escape_exits_from_every_state() {
    let mut asking = one_plus_one_session();
    assert_eq!(asking.handle_key(KeyEvent::Escape), KeyOutcome::Exit);

    let mut answering = one_plus_one_session();
    answering.advance().unwrap();
    assert_eq!(answering.handle_key(KeyEvent::Escape), KeyOutcome::Exit);

    let mut reporting = one_plus_one_session();
    reporting.advance().unwrap();
    type_line(&mut reporting, "3");
    assert_eq!(reporting.state, SessionState::Incorrect);
    assert_eq!(reporting.handle_key(KeyEvent::Escape), KeyOutcome::Exit);
}

#[test]
fn keys_are_ignored_outside_the_answer_state() {
    let mut s = one_plus_one_session();
    assert_eq!(s.state, SessionState::Ask);
    assert_eq!(s.handle_key(KeyEvent::Char('5')), KeyOutcome::Continue);
    assert_eq!(s.handle_key(KeyEvent::Enter), KeyOutcome::Continue);
    assert_eq!(s.handle_key(KeyEvent::Backspace), KeyOutcome::Continue);
    assert_eq!(s.handle_key(KeyEvent::Other), KeyOutcome::Continue);
    assert!(s.buffer.is_empty());
    assert_eq!(s.state, SessionState::Ask);
}

#[test]
fn feedback_line_for_negative_answers() {
    assert_eq!(feedback_chars(-3), cs("Incorrect! Answer: -3"));
    assert_eq!(feedback_chars(0), cs("Incorrect! Answer: 0"));
}
