//! What a calculator screen holds and how a button press changes it. The
//! screens of the three numeral systems share this behaviour and differ in
//! their base alone.

use vstd::prelude::*;
use crate::calculator::Calculator;
use crate::numeral::{number_text, render_number};
use crate::reduction::value_of;
use crate::state::EvaluatorState;
use crate::types::Token;

verus! {

/// What a screen holds at one moment.
pub struct ScreenState {
    /// The screen's own evaluator.
    pub calculator: EvaluatorState,
    /// The text in the display.
    pub display_content: Seq<char>,
}

impl ScreenState {
    /// The screen before anything was pressed.
    pub open spec fn fresh(base: int) -> ScreenState {
        ScreenState { calculator: EvaluatorState::empty(base), display_content: Seq::empty() }
    }

    /// The screen after the button of `token` was pressed.
    ///
    /// A digit that the base does not have changes nothing. `Equals`
    /// evaluates: the display shows the value, or says what went wrong, in
    /// which case the evaluator is cleared. Any other token is entered, and
    /// the display shows the expression built so far.
    pub open spec fn press(self, token: Token) -> ScreenState {
        if !token.valid_for_base(self.calculator.base) {
            self
        } else if token == Token::Equals {
            match value_of(self.calculator.expression()) {
                Ok(v) => ScreenState {
                    calculator: self.calculator.evaluated(),
                    display_content: number_text(v, self.calculator.base),
                },
                Err(e) => ScreenState {
                    calculator: EvaluatorState::empty(self.calculator.base),
                    display_content: e.text(),
                },
            }
        } else {
            ScreenState {
                calculator: self.calculator.step(token),
                display_content: self.calculator.step(token).display(),
            }
        }
    }
}

/// Presses the button of `token` on a screen that holds `calculator` and shows
/// `display_content`.
pub fn press(calculator: &mut Calculator, display_content: &mut String, token: Token)
    ensures
        (ScreenState { calculator: final(calculator)@, display_content: final(display_content)@ })
            == (ScreenState {
            calculator: old(calculator)@,
            display_content: old(display_content)@,
        }).press(token),
{
    let base = calculator.base();
    if token.is_valid_for_base(base) {
        calculator.add_token(token);
        if token == Token::Equals {
            match calculator.evaluate() {
                Ok(v) => {
                    *display_content = render_number(v, base);
                },
                Err(e) => {
                    calculator.add_token(Token::ClearAll);
                    *display_content = e.message().to_owned();
                },
            }
        } else {
            *display_content = calculator.get_display();
        }
    }
}

} // verus!
