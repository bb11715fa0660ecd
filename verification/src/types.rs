//! The closed set of symbols the evaluator understands, and how each is shown.

use vstd::prelude::*;
use crate::numeral::{number_text, render_number, supported_base};

verus! {

/// The numeral system a calculator screen works in.
#[derive(Clone, Copy, Debug, PartialEq, Eq, Structural)]
pub enum CalculatorMode {
    Decimal,
    Binary,
    Hex,
}

/// A binary arithmetic operator.
#[derive(Clone, Copy, Debug, PartialEq, Eq, Structural)]
pub enum Operator {
    Add,
    Subtract,
    Multiply,
    Divide,
}

/// One atomic unit of user input.
///
/// As input, `Number` carries the single digit of one button press. In the
/// committed sequence of an evaluator it carries a whole number.
#[derive(Clone, Copy, Debug, PartialEq, Eq, Structural)]
pub enum Token {
    Number(i64),
    Operator(Operator),
    LeftParen,
    RightParen,
    /// Requests the final reduction.
    Equals,
    /// Resets all evaluator state.
    ClearAll,
    /// Undoes the most recent entry, a digit or a committed token.
    ClearLast,
}

/// Why an evaluation failed.
#[derive(Clone, Copy, Debug, PartialEq, Eq, Structural)]
pub enum EvaluationError {
    MismatchedParentheses,
    DivisionByZero,
    Overflow,
}

impl CalculatorMode {
    /// The base of the mode's numerals.
    pub open spec fn spec_base(self) -> u8 {
        match self {
            CalculatorMode::Decimal => 10,
            CalculatorMode::Binary => 2,
            CalculatorMode::Hex => 16,
        }
    }

    /// The mode that follows this one when the user cycles through them.
    pub open spec fn spec_next(self) -> CalculatorMode {
        match self {
            CalculatorMode::Decimal => CalculatorMode::Binary,
            CalculatorMode::Binary => CalculatorMode::Hex,
            CalculatorMode::Hex => CalculatorMode::Decimal,
        }
    }

    /// The mode's three-letter name.
    pub open spec fn label_text(self) -> Seq<char> {
        match self {
            CalculatorMode::Decimal => seq!['D', 'E', 'C'],
            CalculatorMode::Binary => seq!['B', 'I', 'N'],
            CalculatorMode::Hex => seq!['H', 'E', 'X'],
        }
    }

    #[verifier::when_used_as_spec(spec_base)]
    pub fn base(self) -> (b: u8)
        ensures
            b == self.spec_base(),
            supported_base(b as int),
    {
        match self {
            CalculatorMode::Decimal => 10,
            CalculatorMode::Binary => 2,
            CalculatorMode::Hex => 16,
        }
    }

    #[verifier::when_used_as_spec(spec_next)]
    pub fn next(self) -> (m: CalculatorMode)
        ensures
            m == self.spec_next(),
    {
        match self {
            CalculatorMode::Decimal => CalculatorMode::Binary,
            CalculatorMode::Binary => CalculatorMode::Hex,
            CalculatorMode::Hex => CalculatorMode::Decimal,
        }
    }

    pub fn label(self) -> (s: &'static str)
        ensures
            s@ == self.label_text(),
    {
        proof {
            reveal_strlit("DEC");
            reveal_strlit("BIN");
            reveal_strlit("HEX");
        }
        match self {
            CalculatorMode::Decimal => "DEC",
            CalculatorMode::Binary => "BIN",
            CalculatorMode::Hex => "HEX",
        }
    }
}

impl Default for CalculatorMode {
    fn default() -> (m: CalculatorMode)
        ensures
            m == CalculatorMode::Decimal,
    {
        CalculatorMode::Decimal
    }
}

impl Operator {
    /// Whether the operator binds its two neighbours before any sum is taken.
    pub open spec fn multiplicative(self) -> bool {
        self == Operator::Multiply || self == Operator::Divide
    }

    /// The operator's sign.
    pub open spec fn text(self) -> Seq<char> {
        match self {
            Operator::Add => seq!['+'],
            Operator::Subtract => seq!['-'],
            Operator::Multiply => seq!['*'],
            Operator::Divide => seq!['/'],
        }
    }

    #[verifier::when_used_as_spec(multiplicative)]
    pub fn is_multiplicative(self) -> (b: bool)
        ensures
            b == self.multiplicative(),
    {
        match self {
            Operator::Multiply => true,
            Operator::Divide => true,
            _ => false,
        }
    }

    pub fn render(&self) -> (s: &'static str)
        ensures
            s@ == self.text(),
    {
        proof {
            reveal_strlit("+");
            reveal_strlit("-");
            reveal_strlit("*");
            reveal_strlit("/");
        }
        match self {
            Operator::Add => "+",
            Operator::Subtract => "-",
            Operator::Multiply => "*",
            Operator::Divide => "/",
        }
    }
}

impl Token {
    /// Whether the token may be entered on a calculator that works in `base`:
    /// a digit must be one of the base's digits, anything else always may.
    pub open spec fn valid_for_base(self, base: int) -> bool {
        match self {
            Token::Number(n) => 0 <= n < base,
            _ => true,
        }
    }

    /// What the token shows as, numbers in `base`.
    pub open spec fn text(self, base: int) -> Seq<char> {
        match self {
            Token::Number(n) => number_text(n, base),
            Token::Operator(op) => op.text(),
            Token::LeftParen => seq!['('],
            Token::RightParen => seq![')'],
            Token::Equals => seq!['='],
            Token::ClearAll => seq!['C', 'L', 'E', 'A', 'R'],
            Token::ClearLast => seq!['\u{ab}'],
        }
    }

    pub fn is_valid_for_base(&self, base: u8) -> (ok: bool)
        ensures
            ok == self.valid_for_base(base as int),
    {
        match self {
            Token::Number(n) => 0 <= *n && *n < base as i64,
            _ => true,
        }
    }

    pub fn render(&self, base: u8) -> (s: String)
        requires
            supported_base(base as int),
        ensures
            s@ == self.text(base as int),
    {
        proof {
            reveal_strlit("(");
            reveal_strlit(")");
            reveal_strlit("=");
            reveal_strlit("CLEAR");
            reveal_strlit("\u{ab}");
        }
        match self {
            Token::Number(n) => render_number(*n, base),
            Token::Operator(op) => op.render().to_owned(),
            Token::LeftParen => "(".to_owned(),
            Token::RightParen => ")".to_owned(),
            Token::Equals => "=".to_owned(),
            Token::ClearAll => "CLEAR".to_owned(),
            Token::ClearLast => "\u{ab}".to_owned(),
        }
    }
}

impl EvaluationError {
    /// The sentence that tells the user what went wrong.
    pub open spec fn text(self) -> Seq<char> {
        match self {
            EvaluationError::MismatchedParentheses => "Mismatched parentheses"@,
            EvaluationError::DivisionByZero => "Division by zero"@,
            EvaluationError::Overflow => "Overflow"@,
        }
    }

    pub fn message(&self) -> (s: &'static str)
        ensures
            s@ == self.text(),
    {
        match self {
            EvaluationError::MismatchedParentheses => "Mismatched parentheses",
            EvaluationError::DivisionByZero => "Division by zero",
            EvaluationError::Overflow => "Overflow",
        }
    }
}

} // verus!
