use cryocalc::calculator::Calculator;
use cryocalc::types::{Operator, Token};

/// A small generator of repeatable pseudo-random numbers.
struct Dice(u64);

impl Dice {
    fn roll(&mut self, sides: u64) -> u64 {
        self.0 = self
            .0
            .wrapping_mul(6364136223846793005)
            .wrapping_add(1442695040888963407);
        (self.0 >> 33) % sides
    }
}

fn operator(dice: &mut Dice) -> Operator {
    match dice.roll(4) {
        0 => Operator::Add,
        1 => Operator::Subtract,
        2 => Operator::Multiply,
        _ => Operator::Divide,
    }
}

/// A well-formed expression: operands joined by operators, an operand being a
/// number or a parenthesized expression.
fn expression(dice: &mut Dice, depth: u32, out: &mut Vec<Token>) {
    let operands = 1 + dice.roll(4);
    for k in 0..operands {
        if k > 0 {
            out.push(Token::Operator(operator(dice)));
        }
        if depth > 0 && dice.roll(4) == 0 {
            out.push(Token::LeftParen);
            expression(dice, depth - 1, out);
            out.push(Token::RightParen);
        } else {
            let big = dice.roll(8) == 0;
            let number = if big {
                dice.roll(4_000_000_000) as i64
            } else {
                dice.roll(12) as i64
            };
            out.push(Token::Number(number));
        }
    }
}

/// The usual reading of an expression, by recursive descent, on integers wide
/// enough to see every overflow. `None` where any operation fails.
struct Reader<'a> {
    tokens: &'a [Token],
    at: usize,
}

impl Reader<'_> {
    fn narrow(value: i128) -> Option<i128> {
        if value < i64::MIN as i128 || value > i64::MAX as i128 {
            None
        } else {
            Some(value)
        }
    }

    fn operand(&mut self) -> Option<i128> {
        match self.tokens[self.at] {
            Token::Number(n) => {
                self.at += 1;
                Some(n as i128)
            }
            Token::LeftParen => {
                self.at += 1;
                let inner = self.sum();
                assert_eq!(self.tokens[self.at], Token::RightParen);
                self.at += 1;
                inner
            }
            other => panic!("unexpected {:?}", other),
        }
    }

    fn product(&mut self) -> Option<i128> {
        let mut value = self.operand();
        while self.at < self.tokens.len() {
            let op = match self.tokens[self.at] {
                Token::Operator(op @ (Operator::Multiply | Operator::Divide)) => op,
                _ => break,
            };
            self.at += 1;
            let right = self.operand();
            value = match (value, right) {
                (Some(a), Some(b)) => match op {
                    Operator::Multiply => Self::narrow(a * b),
                    _ if b == 0 => None,
                    _ => Self::narrow(a / b),
                },
                _ => None,
            };
        }
        value
    }

    fn sum(&mut self) -> Option<i128> {
        let mut value = self.product();
        while self.at < self.tokens.len() {
            let op = match self.tokens[self.at] {
                Token::Operator(op @ (Operator::Add | Operator::Subtract)) => op,
                _ => break,
            };
            self.at += 1;
            let right = self.product();
            value = match (value, right) {
                (Some(a), Some(b)) => match op {
                    Operator::Add => Self::narrow(a + b),
                    _ => Self::narrow(a - b),
                },
                _ => None,
            };
        }
        value
    }
}

/// Presses the keys that spell `tokens` on a decimal evaluator, every number
/// digit by digit.
fn typed(tokens: &[Token]) -> Calculator {
    let mut calculator = Calculator::new(10);
    for token in tokens {
        match token {
            Token::Number(n) => {
                for c in n.to_string().chars() {
                    calculator.add_token(Token::Number(c.to_digit(10).unwrap() as i64));
                }
            }
            other => calculator.add_token(*other),
        }
    }
    calculator
}

#[test]
fn well_formed_expressions_have_their_usual_values() {
    let mut dice = Dice(2024);
    let mut succeeded = 0;
    let mut failed = 0;
    for _ in 0..3000 {
        let mut tokens = Vec::new();
        expression(&mut dice, 3, &mut tokens);
        let mut reader = Reader {
            tokens: &tokens,
            at: 0,
        };
        let usual = reader.sum();
        assert_eq!(reader.at, tokens.len());
        let mut calculator = typed(&tokens);
        assert_eq!(calculator.get_display(), {
            let words: Vec<String> = tokens.iter().map(|t| t.render(10)).collect();
            words.join(" ")
        });
        let value = calculator.evaluate();
        match usual {
            Some(v) => {
                assert_eq!(value, Ok(v as i64), "{:?}", tokens);
                assert_eq!(calculator.tokens(), &vec![Token::Number(v as i64)]);
                succeeded += 1;
            }
            None => {
                assert!(value.is_err(), "{:?}", tokens);
                assert_eq!(calculator.tokens(), &tokens);
                failed += 1;
            }
        }
    }
    assert!(succeeded > 1000);
    assert!(failed > 100);
}

#[test]
fn entering_committed_tokens_one_by_one_rebuilds_them() {
    let mut dice = Dice(7);
    for _ in 0..500 {
        let mut tokens = Vec::new();
        expression(&mut dice, 2, &mut tokens);
        let calculator = typed(&tokens);
        let mut expected = tokens.clone();
        if let Some(Token::Number(n)) = tokens.last() {
            assert!(calculator.digit_entry_active());
            assert_eq!(calculator.pending_value(), *n);
            expected.pop();
        } else {
            assert!(!calculator.digit_entry_active());
        }
        assert_eq!(calculator.tokens(), &expected);
    }
}
