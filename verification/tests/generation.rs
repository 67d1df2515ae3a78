use menth::AllowedOperators;
use menth::ArithmeticError;
use menth::Bound;
use menth::ConfigError;
use menth::Operator;
use menth::generate;

fn cs(s: &str) -> Vec<char> {
    s.chars().collect()
}

fn pool(symbols: &str) -> AllowedOperators {
    AllowedOperators::from_symbols(&cs(symbols)).unwrap()
}

#[test]
fn operator_pool_rejects_bad_configuration() {
    assert!(matches!(
        AllowedOperators::from_symbols(&cs("")),
        Err(ConfigError::EmptyOperators)
    ));
    assert!(matches!(
        AllowedOperators::from_symbols(&cs("+q*")),
        Err(ConfigError::InvalidOperatorChar('q'))
    ));
    let p = pool("+-*/");
    assert_eq!(p.len(), 4);
    assert_eq!(p.op_at(0), Operator::Add);
    assert_eq!(p.op_at(3), Operator::Divide);
}

#[test]
fn generated_questions_stay_in_bound_with_matching_answer() {
    let bound = Bound::new(2, 9).unwrap();
    let ops = pool("+-*");
    for _ in 0..200 {
        let q = generate(bound, &ops).unwrap();
        assert!((2..=9).contains(&q.operand1));
        assert!((2..=9).contains(&q.operand2));
        let expected = match q.operator {
            Operator::Add => q.operand1 as i64 + q.operand2 as i64,
            Operator::Subtract => q.operand1 as i64 - q.operand2 as i64,
            Operator::Multiply => q.operand1 as i64 * q.operand2 as i64,
            Operator::Divide => panic!("operator not in the pool"),
        };
        assert_eq!(q.answer, expected);
    }
}

#[test]
fn singleton_bound_pins_both_operands() {
    let bound = Bound::new(5, 5).unwrap();
    let ops = pool("+-*/");
    for _ in 0..100 {
        let q = generate(bound, &ops).unwrap();
        assert_eq!(q.operand1, 5);
        assert_eq!(q.operand2, 5);
    }
}

#[test]
fn smallest_bound_shows_the_draw_is_not_the_range_width() {
    // With the one-value bound [3,3] every uniform draw must land on 3
    // itself; any off-by-one in the sampling would leave the range.
    let bound = Bound::new(3, 3).unwrap();
    let ops = pool("+");
    for _ in 0..50 {
        let q = generate(bound, &ops).unwrap();
        assert_eq!(q.operand1, 3);
        assert_eq!(q.operand2, 3);
        assert_eq!(q.operator, Operator::Add);
        assert_eq!(q.answer, 6);
    }
}

#[test]
fn one_plus_one_questions() {
    let bound = Bound::new(1, 1).unwrap();
    let ops = pool("+");
    for _ in 0..50 {
        let q = generate(bound, &ops).unwrap();
        assert_eq!(q.operand1, 1);
        assert_eq!(q.operand2, 1);
        assert_eq!(q.operator, Operator::Add);
        assert_eq!(q.answer, 2);
        assert_eq!(q.prompt_chars(), cs("1 + 1 = "));
    }
}

#[test]
fn division_only_on_zero_bound_errs_on_every_attempt() {
    let bound = Bound::new(0, 0).unwrap();
    let ops = pool("/");
    for _ in 0..50 {
        assert_eq!(generate(bound, &ops), Err(ArithmeticError::DivisionByZero));
    }
}

#[test]
fn prompt_renders_operands_operator_and_equals() {
    let bound = Bound::new(12, 12).unwrap();
    let ops = pool("*");
    let q = generate(bound, &ops).unwrap();
    assert_eq!(q.prompt_chars(), cs("12 * 12 = "));
    assert_eq!(q.answer, 144);
}

#[test]
fn division_with_a_positive_bound_always_succeeds() {
    // No zero divisor can be drawn once the bound's minimum is positive.
    let bound = Bound::new(1, 9).unwrap();
    let ops = pool("/");
    for _ in 0..200 {
        let q = generate(bound, &ops).unwrap();
        assert_eq!(q.operator, Operator::Divide);
        assert!(q.operand2 != 0);
        assert_eq!(q.answer, q.operand1 as i64 / q.operand2 as i64);
    }
}

#[test]
fn repeated_glyphs_weight_the_pool() {
    let p = pool("++*");
    assert_eq!(p.len(), 3);
    assert_eq!(p.op_at(0), Operator::Add);
    assert_eq!(p.op_at(1), Operator::Add);
    assert_eq!(p.op_at(2), Operator::Multiply);
}
