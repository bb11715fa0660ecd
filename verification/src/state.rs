//! The evaluator's state as a mathematical value, and the transition that each
//! token makes on it.

use vstd::prelude::*;
use crate::numeral::supported_base;
use crate::reduction::value_of;
use crate::types::{Operator, Token};

verus! {

/// What an evaluator holds at one moment.
///
/// The expression being built is `tokens`, followed by `pending_value` while
/// digit entry is active.
pub struct EvaluatorState {
    /// The committed tokens: whole numbers, operators and parentheses.
    pub tokens: Seq<Token>,
    /// The number spelled by the digits typed since the last commit.
    pub pending_value: int,
    /// Whether `pending_value` holds digits that are not yet in `tokens`.
    pub digit_entry_active: bool,
    /// Whether an opening parenthesis was entered since the last reset.
    pub paren_depth_hint: bool,
    /// The base that digits are entered and numbers are shown in.
    pub base: int,
}

/// The text of `ts`, numbers in `base`, with one space between neighbours.
pub open spec fn tokens_text(ts: Seq<Token>, base: int) -> Seq<char>
    decreases ts.len(),
{
    if ts.len() == 0 {
        Seq::empty()
    } else if ts.len() == 1 {
        ts[0].text(base)
    } else {
        tokens_text(ts.drop_last(), base) + seq![' '] + ts.last().text(base)
    }
}

impl EvaluatorState {
    /// The invariant of every evaluator: a supported base, a pending value
    /// that is a non-negative 64-bit signed integer, and no pending value
    /// outside digit entry.
    pub open spec fn wf(self) -> bool {
        &&& supported_base(self.base)
        &&& 0 <= self.pending_value <= i64::MAX
        &&& !self.digit_entry_active ==> self.pending_value == 0
    }

    /// The evaluator that nothing was entered into.
    pub open spec fn empty(base: int) -> EvaluatorState {
        EvaluatorState {
            tokens: Seq::empty(),
            pending_value: 0,
            digit_entry_active: false,
            paren_depth_hint: false,
            base,
        }
    }

    /// The state with the pending number committed: it becomes the last
    /// token, and digit entry ends. Outside digit entry nothing changes.
    pub open spec fn flushed(self) -> EvaluatorState {
        if self.digit_entry_active {
            EvaluatorState {
                tokens: self.tokens.push(Token::Number(self.pending_value as i64)),
                pending_value: 0,
                digit_entry_active: false,
                ..self
            }
        } else {
            self
        }
    }

    /// The expression built so far: the committed tokens, then the pending
    /// number if there is one.
    pub open spec fn expression(self) -> Seq<Token> {
        self.flushed().tokens
    }

    /// A digit is appended to the pending number. A digit that would take the
    /// pending number past the largest 64-bit signed integer is ignored.
    pub open spec fn enter_digit(self, n: i64) -> EvaluatorState {
        let grown = self.pending_value * self.base + n;
        if grown <= i64::MAX {
            EvaluatorState { pending_value: grown, digit_entry_active: true, ..self }
        } else {
            self
        }
    }

    /// An operator commits the pending number and follows it. Outside digit
    /// entry it takes the place of an operator that ends the tokens, and is
    /// appended otherwise.
    pub open spec fn enter_operator(self, op: Operator) -> EvaluatorState {
        if self.digit_entry_active {
            EvaluatorState {
                tokens: self.flushed().tokens.push(Token::Operator(op)),
                ..self.flushed()
            }
        } else if self.tokens.len() > 0 && self.tokens.last() is Operator {
            EvaluatorState { tokens: self.tokens.drop_last().push(Token::Operator(op)), ..self }
        } else {
            EvaluatorState { tokens: self.tokens.push(Token::Operator(op)), ..self }
        }
    }

    /// An opening parenthesis that follows a number being typed multiplies
    /// with it: the number is committed and `*` is put between the two.
    pub open spec fn open_paren(self) -> EvaluatorState {
        if self.digit_entry_active {
            EvaluatorState {
                tokens: self.flushed().tokens.push(Token::Operator(Operator::Multiply)).push(
                    Token::LeftParen,
                ),
                paren_depth_hint: true,
                ..self.flushed()
            }
        } else {
            EvaluatorState {
                tokens: self.tokens.push(Token::LeftParen),
                paren_depth_hint: true,
                ..self
            }
        }
    }

    /// A closing parenthesis commits the pending number and follows it,
    /// whether or not a parenthesis is open.
    pub open spec fn close_paren(self) -> EvaluatorState {
        EvaluatorState {
            tokens: self.flushed().tokens.push(Token::RightParen),
            ..self.flushed()
        }
    }

    /// The most recent entry is undone. In digit entry that is the last digit,
    /// and digit entry ends when the pending number is left at zero. Outside
    /// digit entry it is the last committed token, if there is one.
    pub open spec fn clear_last(self) -> EvaluatorState {
        if self.digit_entry_active {
            let shortened = self.pending_value / self.base;
            EvaluatorState {
                pending_value: shortened,
                digit_entry_active: shortened != 0,
                ..self
            }
        } else if self.tokens.len() > 0 {
            EvaluatorState { tokens: self.tokens.drop_last(), ..self }
        } else {
            self
        }
    }

    /// The state after `token` is entered. A digit that is not one of the
    /// base's digits changes nothing.
    pub open spec fn step(self, token: Token) -> EvaluatorState {
        if !token.valid_for_base(self.base) {
            self
        } else {
            match token {
                Token::Number(n) => self.enter_digit(n),
                Token::Operator(op) => self.enter_operator(op),
                Token::LeftParen => self.open_paren(),
                Token::RightParen => self.close_paren(),
                Token::Equals => self.flushed(),
                Token::ClearAll => EvaluatorState::empty(self.base),
                Token::ClearLast => self.clear_last(),
            }
        }
    }

    /// The state after the tokens `entered` are entered one after the other.
    pub open spec fn run(self, entered: Seq<Token>) -> EvaluatorState
        decreases entered.len(),
    {
        if entered.len() == 0 {
            self
        } else {
            self.run(entered.drop_last()).step(entered.last())
        }
    }

    /// What the evaluator shows: the expression built so far.
    pub open spec fn display(self) -> Seq<char> {
        tokens_text(self.expression(), self.base)
    }

    /// The state after an evaluation. The pending number is committed. Where
    /// the expression has a value, that value becomes the only token; where
    /// the evaluation fails, the expression stays as it was entered.
    pub open spec fn evaluated(self) -> EvaluatorState {
        match value_of(self.expression()) {
            Ok(v) => EvaluatorState { tokens: seq![Token::Number(v)], ..self.flushed() },
            Err(_) => self.flushed(),
        }
    }
}

} // verus!
