use cryocalc::calculator::Calculator;
use cryocalc::types::{EvaluationError, Operator, Token};

fn enter(calculator: &mut Calculator, tokens: &[Token]) {
    for token in tokens {
        calculator.add_token(*token);
    }
}

fn digit(n: i64) -> Token {
    Token::Number(n)
}

const PLUS: Token = Token::Operator(Operator::Add);
const MINUS: Token = Token::Operator(Operator::Subtract);
const TIMES: Token = Token::Operator(Operator::Multiply);
const OVER: Token = Token::Operator(Operator::Divide);

#[test]
fn empty_evaluator_is_worth_zero() {
    for base in [2u8, 10, 16] {
        let mut calculator = Calculator::new(base);
        assert_eq!(calculator.get_display(), "");
        assert_eq!(calculator.evaluate(), Ok(0));
        assert_eq!(calculator.tokens(), &vec![Token::Number(0)]);
        assert_eq!(calculator.get_display(), "0");
    }
}

#[test]
fn juxtaposed_parenthesis_multiplies() {
    let mut calculator = Calculator::new(10);
    enter(&mut calculator, &[digit(5), Token::LeftParen]);
    assert_eq!(
        calculator.tokens(),
        &vec![Token::Number(5), TIMES, Token::LeftParen]
    );
    assert!(calculator.paren_depth_hint());
    enter(&mut calculator, &[digit(3), Token::RightParen, Token::Equals]);
    assert_eq!(calculator.get_display(), "5 * ( 3 )");
    assert_eq!(calculator.evaluate(), Ok(15));
}

#[test]
fn multiplication_binds_before_addition() {
    let mut calculator = Calculator::new(10);
    enter(
        &mut calculator,
        &[digit(2), PLUS, digit(3), TIMES, digit(4), Token::Equals],
    );
    assert_eq!(calculator.evaluate(), Ok(14));
}

#[test]
fn parentheses_bind_before_multiplication() {
    let mut calculator = Calculator::new(10);
    enter(
        &mut calculator,
        &[
            Token::LeftParen,
            digit(2),
            PLUS,
            digit(3),
            Token::RightParen,
            TIMES,
            digit(4),
            Token::Equals,
        ],
    );
    assert_eq!(calculator.evaluate(), Ok(20));
    assert_eq!(calculator.tokens(), &vec![Token::Number(20)]);
}

#[test]
fn division_by_zero_fails_and_keeps_the_expression() {
    let mut calculator = Calculator::new(10);
    enter(&mut calculator, &[digit(5), OVER, digit(0), Token::Equals]);
    assert_eq!(calculator.evaluate(), Err(EvaluationError::DivisionByZero));
    assert_eq!(
        calculator.tokens(),
        &vec![Token::Number(5), OVER, Token::Number(0)]
    );
    assert_eq!(calculator.pending_value(), 0);
    assert!(!calculator.digit_entry_active());
    assert_eq!(calculator.get_display(), "5 / 0");
    calculator.add_token(Token::ClearAll);
    assert_eq!(calculator.evaluate(), Ok(0));
}

#[test]
fn unclosed_parenthesis_is_mismatched() {
    let mut calculator = Calculator::new(10);
    enter(
        &mut calculator,
        &[Token::LeftParen, digit(1), PLUS, digit(2), Token::Equals],
    );
    assert_eq!(
        calculator.evaluate(),
        Err(EvaluationError::MismatchedParentheses)
    );
    assert_eq!(
        calculator.tokens(),
        &vec![Token::LeftParen, Token::Number(1), PLUS, Token::Number(2)]
    );
}

#[test]
fn unopened_parenthesis_is_mismatched() {
    let mut calculator = Calculator::new(10);
    enter(&mut calculator, &[digit(1), PLUS, digit(2), Token::RightParen]);
    assert_eq!(
        calculator.evaluate(),
        Err(EvaluationError::MismatchedParentheses)
    );
    let mut calculator = Calculator::new(10);
    enter(
        &mut calculator,
        &[
            Token::RightParen,
            Token::LeftParen,
            digit(1),
            Token::RightParen,
        ],
    );
    assert_eq!(
        calculator.evaluate(),
        Err(EvaluationError::MismatchedParentheses)
    );
}

#[test]
fn binary_rejects_the_digit_two() {
    let mut calculator = Calculator::new(2);
    enter(&mut calculator, &[digit(1), digit(0)]);
    calculator.add_token(digit(2));
    assert_eq!(calculator.pending_value(), 2);
    assert!(calculator.digit_entry_active());
    assert_eq!(calculator.tokens(), &Vec::<Token>::new());
    assert_eq!(calculator.get_display(), "10");
    assert!(!digit(2).is_valid_for_base(2));
}

#[test]
fn hexadecimal_accepts_fifteen_and_shows_f() {
    assert!(digit(15).is_valid_for_base(16));
    assert_eq!(digit(15).render(16), "F");
    let mut calculator = Calculator::new(16);
    calculator.add_token(digit(15));
    assert_eq!(calculator.pending_value(), 15);
    assert_eq!(calculator.get_display(), "F");
    calculator.add_token(digit(16));
    assert_eq!(calculator.pending_value(), 15);
}

#[test]
fn operator_overwrites_operator() {
    let mut twice = Calculator::new(10);
    enter(&mut twice, &[digit(7), PLUS, MINUS]);
    let mut once = Calculator::new(10);
    enter(&mut once, &[digit(7), MINUS]);
    assert_eq!(twice.tokens(), once.tokens());
    assert_eq!(twice.tokens(), &vec![Token::Number(7), MINUS]);
}

fn tokens_of(text: &str) -> Vec<Token> {
    text.split_whitespace()
        .map(|word| match word {
            "+" => PLUS,
            "-" => MINUS,
            "*" => TIMES,
            "/" => OVER,
            "(" => Token::LeftParen,
            ")" => Token::RightParen,
            "=" => Token::Equals,
            "C" => Token::ClearAll,
            "<" => Token::ClearLast,
            number => Token::Number(number.parse().unwrap()),
        })
        .collect()
}

/// Presses the keys of `text` on a fresh decimal evaluator: each digit of a
/// number is one press.
fn typed(text: &str) -> Calculator {
    let mut calculator = Calculator::new(10);
    for word in text.split_whitespace() {
        if word.chars().all(|c| c.is_ascii_digit()) {
            for c in word.chars() {
                calculator.add_token(Token::Number(c.to_digit(10).unwrap() as i64));
            }
        } else {
            enter(&mut calculator, &tokens_of(word));
        }
    }
    calculator
}

fn value(text: &str) -> Result<i64, EvaluationError> {
    typed(text).evaluate()
}

#[test]
fn a_fresh_evaluator_is_empty() {
    for base in [2u8, 10, 16] {
        let calculator = Calculator::new(base);
        assert_eq!(calculator.base(), base);
        assert!(calculator.tokens().is_empty());
        assert_eq!(calculator.pending_value(), 0);
        assert!(!calculator.digit_entry_active());
        assert!(!calculator.paren_depth_hint());
        assert_eq!(calculator.get_display(), "");
    }
}

#[test]
fn digits_spell_their_number_in_decimal() {
    let mut calculator = Calculator::new(10);
    let mut spelled = 0i64;
    for d in [4i64, 0, 7, 1, 9] {
        calculator.add_token(digit(d));
        spelled = spelled * 10 + d;
        assert_eq!(calculator.pending_value(), spelled);
        assert!(calculator.digit_entry_active());
        assert!(calculator.tokens().is_empty());
    }
    assert_eq!(calculator.pending_value(), 40719);
    assert_eq!(calculator.get_display(), "40719");
}

#[test]
fn digits_spell_their_number_in_binary_and_hexadecimal() {
    let mut binary = Calculator::new(2);
    enter(&mut binary, &[digit(1), digit(0), digit(1), digit(1)]);
    assert_eq!(binary.pending_value(), 0b1011);
    assert_eq!(binary.get_display(), "1011");
    let mut hex = Calculator::new(16);
    enter(&mut hex, &[digit(1), digit(15), digit(10), digit(0)]);
    assert_eq!(hex.pending_value(), 0x1FA0);
    assert_eq!(hex.get_display(), "1FA0");
}

#[test]
fn clear_last_takes_digits_back_in_reverse() {
    let mut calculator = typed("7 + 4071");
    assert_eq!(calculator.pending_value(), 4071);
    for left in [407i64, 40, 4] {
        calculator.add_token(Token::ClearLast);
        assert_eq!(calculator.pending_value(), left);
        assert!(calculator.digit_entry_active());
    }
    calculator.add_token(Token::ClearLast);
    assert_eq!(calculator.pending_value(), 0);
    assert!(!calculator.digit_entry_active());
    assert_eq!(calculator.tokens(), &tokens_of("7 +"));
}

#[test]
fn clear_last_in_hexadecimal_divides_by_sixteen() {
    let mut calculator = Calculator::new(16);
    enter(&mut calculator, &[digit(10), digit(11), digit(12)]);
    assert_eq!(calculator.pending_value(), 0xABC);
    calculator.add_token(Token::ClearLast);
    assert_eq!(calculator.pending_value(), 0xAB);
    calculator.add_token(Token::ClearLast);
    assert_eq!(calculator.pending_value(), 0xA);
    calculator.add_token(Token::ClearLast);
    assert_eq!(calculator.pending_value(), 0);
    assert!(!calculator.digit_entry_active());
}

#[test]
fn clear_last_after_a_leading_zero_ends_digit_entry_at_once() {
    let mut calculator = typed("7 + 05");
    assert_eq!(calculator.pending_value(), 5);
    calculator.add_token(Token::ClearLast);
    assert_eq!(calculator.pending_value(), 0);
    assert!(!calculator.digit_entry_active());
    assert_eq!(calculator.tokens(), &tokens_of("7 +"));
    calculator.add_token(Token::ClearLast);
    assert_eq!(calculator.pending_value(), 0);
    assert!(!calculator.digit_entry_active());
    assert_eq!(calculator.tokens(), &tokens_of("7"));
}

#[test]
fn a_lone_zero_is_a_number_being_typed() {
    let mut calculator = typed("0");
    assert!(calculator.digit_entry_active());
    assert_eq!(calculator.get_display(), "0");
    calculator.add_token(PLUS);
    assert_eq!(calculator.tokens(), &tokens_of("0 +"));
}

#[test]
fn clear_last_removes_committed_tokens_outside_digit_entry() {
    let mut calculator = typed("12 + ( 3 )");
    assert_eq!(calculator.tokens(), &tokens_of("12 + ( 3 )"));
    calculator.add_token(Token::ClearLast);
    assert_eq!(calculator.tokens(), &tokens_of("12 + ( 3"));
    calculator.add_token(Token::ClearLast);
    assert_eq!(calculator.tokens(), &tokens_of("12 + ("));
    calculator.add_token(Token::ClearLast);
    calculator.add_token(Token::ClearLast);
    calculator.add_token(Token::ClearLast);
    assert!(calculator.tokens().is_empty());
    calculator.add_token(Token::ClearLast);
    assert!(calculator.tokens().is_empty());
    assert_eq!(calculator.pending_value(), 0);
}

#[test]
fn a_digit_past_the_largest_number_is_ignored() {
    let mut calculator = typed("922337203685477580");
    calculator.add_token(digit(7));
    assert_eq!(calculator.pending_value(), i64::MAX);
    calculator.add_token(digit(0));
    assert_eq!(calculator.pending_value(), i64::MAX);
    assert!(calculator.digit_entry_active());
    let mut calculator = typed("922337203685477580");
    calculator.add_token(digit(8));
    assert_eq!(calculator.pending_value(), 922337203685477580);
    calculator.add_token(digit(7));
    assert_eq!(calculator.pending_value(), i64::MAX);
    assert_eq!(calculator.evaluate(), Ok(i64::MAX));
}

#[test]
fn an_operator_commits_the_pending_number() {
    let calculator = typed("12 +");
    assert_eq!(calculator.tokens(), &tokens_of("12 +"));
    assert_eq!(calculator.pending_value(), 0);
    assert!(!calculator.digit_entry_active());
}

#[test]
fn an_operator_is_appended_where_no_operator_ends_the_tokens() {
    assert_eq!(typed("+").tokens(), &tokens_of("+"));
    assert_eq!(typed("( -").tokens(), &tokens_of("( -"));
    assert_eq!(typed("( 1 ) *").tokens(), &tokens_of("( 1 ) *"));
    assert_eq!(typed("+ - * /").tokens(), &tokens_of("/"));
}

#[test]
fn an_opening_parenthesis_without_a_pending_number_is_only_appended() {
    let calculator = typed("2 + (");
    assert_eq!(calculator.tokens(), &tokens_of("2 + ("));
    assert!(calculator.paren_depth_hint());
    let calculator = typed("( (");
    assert_eq!(calculator.tokens(), &tokens_of("( ("));
}

#[test]
fn a_closing_parenthesis_is_appended_without_a_balance_check() {
    let calculator = typed("1 )");
    assert_eq!(calculator.tokens(), &tokens_of("1 )"));
    assert!(!calculator.paren_depth_hint());
    let calculator = typed(") )");
    assert_eq!(calculator.tokens(), &tokens_of(") )"));
}

#[test]
fn equals_commits_and_does_not_evaluate() {
    let mut calculator = typed("2 + 3");
    assert_eq!(calculator.tokens(), &tokens_of("2 +"));
    calculator.add_token(Token::Equals);
    assert_eq!(calculator.tokens(), &tokens_of("2 + 3"));
    assert!(!calculator.digit_entry_active());
    calculator.add_token(Token::Equals);
    assert_eq!(calculator.tokens(), &tokens_of("2 + 3"));
}

#[test]
fn clear_all_resets_everything_but_the_base() {
    let mut calculator = Calculator::new(16);
    enter(
        &mut calculator,
        &[digit(10), PLUS, Token::LeftParen, digit(3)],
    );
    assert!(calculator.paren_depth_hint());
    calculator.add_token(Token::ClearAll);
    assert!(calculator.tokens().is_empty());
    assert_eq!(calculator.pending_value(), 0);
    assert!(!calculator.digit_entry_active());
    assert!(!calculator.paren_depth_hint());
    assert_eq!(calculator.base(), 16);
    assert_eq!(calculator.get_display(), "");
}

#[test]
fn the_display_joins_tokens_with_spaces() {
    assert_eq!(typed("12 + 3").get_display(), "12 + 3");
    assert_eq!(typed("12 +").get_display(), "12 +");
    assert_eq!(typed("( 1 + 2 ) * 3 =").get_display(), "( 1 + 2 ) * 3");
    assert_eq!(typed("5 ( 3").get_display(), "5 * ( 3");
    assert_eq!(typed("7").get_display(), "7");
    assert_eq!(typed("+").get_display(), "+");
}

#[test]
fn the_display_is_in_the_base() {
    let mut hex = Calculator::new(16);
    enter(
        &mut hex,
        &[digit(15), digit(15), PLUS, digit(1), digit(0), TIMES, digit(12)],
    );
    assert_eq!(hex.tokens(), &vec![Token::Number(255), PLUS, Token::Number(16), TIMES]);
    assert_eq!(hex.get_display(), "FF + 10 * C");
    let mut binary = Calculator::new(2);
    enter(&mut binary, &[digit(1), digit(0), MINUS, digit(1), digit(1)]);
    assert_eq!(binary.get_display(), "10 - 11");
}

#[test]
fn the_display_after_an_evaluation_is_the_value_in_the_base() {
    let mut decimal = typed("2 - 30");
    assert_eq!(decimal.evaluate(), Ok(-28));
    assert_eq!(decimal.get_display(), "-28");
    let mut hex = Calculator::new(16);
    enter(&mut hex, &[digit(15), TIMES, digit(15)]);
    assert_eq!(hex.evaluate(), Ok(225));
    assert_eq!(hex.get_display(), "E1");
    let mut hex = Calculator::new(16);
    enter(&mut hex, &[digit(1), MINUS, digit(2)]);
    assert_eq!(hex.evaluate(), Ok(-1));
    assert_eq!(hex.get_display(), "FFFFFFFFFFFFFFFF");
    let mut binary = Calculator::new(2);
    enter(&mut binary, &[digit(1), digit(1), PLUS, digit(1)]);
    assert_eq!(binary.evaluate(), Ok(4));
    assert_eq!(binary.get_display(), "100");
}

#[test]
fn evaluate_commits_the_pending_number_by_itself() {
    let mut calculator = typed("2 + 3");
    assert!(calculator.digit_entry_active());
    assert_eq!(calculator.evaluate(), Ok(5));
    assert_eq!(calculator.tokens(), &tokens_of("5"));
    assert_eq!(calculator.pending_value(), 0);
    assert!(!calculator.digit_entry_active());
}

#[test]
fn evaluating_again_gives_the_same_value() {
    let mut calculator = typed("6 * 7 =");
    assert_eq!(calculator.evaluate(), Ok(42));
    assert_eq!(calculator.evaluate(), Ok(42));
    assert_eq!(calculator.tokens(), &tokens_of("42"));
}

#[test]
fn a_value_can_be_built_upon() {
    let mut calculator = typed("6 * 7 =");
    assert_eq!(calculator.evaluate(), Ok(42));
    enter(&mut calculator, &[MINUS, digit(2), Token::Equals]);
    assert_eq!(calculator.tokens(), &tokens_of("42 - 2"));
    assert_eq!(calculator.evaluate(), Ok(40));
}

#[test]
fn expressions_have_their_values() {
    assert_eq!(value("1 + 2 ="), Ok(3));
    assert_eq!(value("10 - 3 - 2 ="), Ok(5));
    assert_eq!(value("100 / 5 / 2 ="), Ok(10));
    assert_eq!(value("2 + 3 * 4 - 6 / 2 ="), Ok(11));
    assert_eq!(value("7 / 2 ="), Ok(3));
    assert_eq!(value("( 1 - 8 ) / 2 ="), Ok(-3));
    assert_eq!(value("2 * ( 3 + 4 ) ="), Ok(14));
    assert_eq!(value("( 2 + 3 ) * ( 4 + 5 ) ="), Ok(45));
    assert_eq!(value("( ( 1 + 2 ) * ( 3 + 4 ) ) - 1 ="), Ok(20));
    assert_eq!(value("( ( ( 7 ) ) ) ="), Ok(7));
    assert_eq!(value("12 ( 3 + 4 ) ="), Ok(84));
    assert_eq!(value("2 ( 3 ( 4 ) ) ="), Ok(24));
}

#[test]
fn an_empty_group_is_worth_zero() {
    assert_eq!(value("( ) ="), Ok(0));
    assert_eq!(value("5 + ( ) ="), Ok(5));
    assert_eq!(value("5 ( ) ="), Ok(0));
    assert_eq!(value("( + ) ="), Ok(0));
}

#[test]
fn an_operator_without_a_neighbour_is_left_out() {
    assert_eq!(value("+ ="), Ok(0));
    assert_eq!(value("+ 5 ="), Ok(5));
    assert_eq!(value("5 + ="), Ok(5));
    assert_eq!(value("5 * ="), Ok(5));
    assert_eq!(value("* 5 - 3 ="), Ok(2));
    assert_eq!(value("+ 5 - 3 ="), Ok(2));
    assert_eq!(value("2 * ( + 3 ) ="), Ok(6));
    assert_eq!(value("2 * ( 3 - ) ="), Ok(6));
    assert_eq!(value("- 5 ="), Ok(5));
}

#[test]
fn values_side_by_side_are_multiplied() {
    assert_eq!(value("( 3 ) 5 ="), Ok(15));
    assert_eq!(value("( 3 ) ( 5 ) ="), Ok(15));
    assert_eq!(value("2 + ( 3 ) 4 ="), Ok(14));
    assert_eq!(typed("( 3 ) 5 =").tokens(), &tokens_of("( 3 ) 5"));
    let mut calculator = typed("6 * 7 =");
    assert_eq!(calculator.evaluate(), Ok(42));
    enter(&mut calculator, &[digit(2), Token::Equals]);
    assert_eq!(calculator.evaluate(), Ok(84));
}

#[test]
fn mismatched_parentheses_are_reported() {
    let mismatched = Err(EvaluationError::MismatchedParentheses);
    assert_eq!(value("( ="), mismatched);
    assert_eq!(value(") ="), mismatched);
    assert_eq!(value(") ( ="), mismatched);
    assert_eq!(value("( 1 + 2 ) ) ="), mismatched);
    assert_eq!(value("( ( 1 + 2 ) ="), mismatched);
    assert_eq!(value("1 + 2 ) * ( 3 ="), mismatched);
}

#[test]
fn the_first_group_that_fails_decides() {
    assert_eq!(
        value("( 1 / 0 ) + ( ="),
        Err(EvaluationError::DivisionByZero)
    );
    assert_eq!(
        value("( 1 + 2 ) + ( 1 / 0 ) ) ="),
        Err(EvaluationError::DivisionByZero)
    );
    assert_eq!(
        value(") + ( 1 / 0 ) ="),
        Err(EvaluationError::MismatchedParentheses)
    );
    assert_eq!(
        value("( 9223372036854775807 + 1 ) / 0 ="),
        Err(EvaluationError::Overflow)
    );
}

#[test]
fn overflow_is_reported_and_keeps_the_expression() {
    let mut calculator = typed("9223372036854775807 + 1 =");
    assert_eq!(calculator.evaluate(), Err(EvaluationError::Overflow));
    assert_eq!(calculator.tokens(), &tokens_of("9223372036854775807 + 1"));
    let mut calculator = typed("4611686018427387904 * 2 =");
    assert_eq!(calculator.evaluate(), Err(EvaluationError::Overflow));
    let mut calculator = typed("( 0 - 9223372036854775807 - 1 ) / ( 0 - 1 ) =");
    assert_eq!(calculator.evaluate(), Err(EvaluationError::Overflow));
    let mut calculator = typed("0 - 9223372036854775807 - 1 =");
    assert_eq!(calculator.evaluate(), Ok(i64::MIN));
}

#[test]
fn a_failed_evaluation_leaves_the_evaluator_usable() {
    let mut calculator = typed("( 8 / ( 2 - 2 ) ) + 1");
    assert_eq!(calculator.evaluate(), Err(EvaluationError::DivisionByZero));
    assert_eq!(calculator.tokens(), &tokens_of("( 8 / ( 2 - 2 ) ) + 1"));
    assert!(calculator.paren_depth_hint());
    assert_eq!(calculator.get_display(), "( 8 / ( 2 - 2 ) ) + 1");
    assert_eq!(calculator.evaluate(), Err(EvaluationError::DivisionByZero));
    enter(&mut calculator, &[Token::ClearAll, digit(8), OVER, digit(2)]);
    assert_eq!(calculator.evaluate(), Ok(4));
}

#[test]
fn the_parenthesis_mark_outlives_an_evaluation() {
    let mut calculator = typed("( 1 )");
    assert_eq!(calculator.evaluate(), Ok(1));
    assert!(calculator.paren_depth_hint());
    calculator.add_token(Token::ClearAll);
    assert!(!calculator.paren_depth_hint());
}

#[test]
fn the_default_evaluator_is_decimal_and_empty() {
    let mut calculator = Calculator::default();
    assert_eq!(calculator.base(), 10);
    assert!(calculator.tokens().is_empty());
    enter(&mut calculator, &[digit(9), digit(9)]);
    assert_eq!(calculator.pending_value(), 99);
}

#[test]
fn a_product_that_follows_a_sum_is_taken_first() {
    for (a, b, c) in [(2i64, 3i64, 4i64), (9, 0, 7), (1, 9, 9), (0, 5, 5)] {
        let mut calculator = Calculator::new(10);
        enter(&mut calculator, &[digit(a), MINUS, digit(b), TIMES, digit(c)]);
        assert_eq!(calculator.evaluate(), Ok(a - b * c));
        let mut calculator = Calculator::new(10);
        enter(
            &mut calculator,
            &[
                Token::LeftParen,
                digit(a),
                MINUS,
                digit(b),
                Token::RightParen,
                TIMES,
                digit(c),
            ],
        );
        assert_eq!(calculator.evaluate(), Ok((a - b) * c));
    }
}
