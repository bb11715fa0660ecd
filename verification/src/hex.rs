//! The hexahexadecimal screen.

use vstd::prelude::*;
use crate::calculator::Calculator;
use crate::screen::{press, ScreenState};
use crate::types::Token;

verus! {

/// What reaches the hexadecimal screen.
#[derive(Debug)]
pub enum Message {
    /// The button of a token was pressed.
    ButtonPressed(Token),
    /// The user typed into the display. The display only shows what the
    /// evaluator holds, so the typed text is not taken.
    DisplayContentChanged(String),
}

impl Message {
    /// Whether `other` says what this message says.
    pub open spec fn same_as(self, other: Message) -> bool {
        match (self, other) {
            (Message::ButtonPressed(a), Message::ButtonPressed(b)) => a == b,
            (Message::DisplayContentChanged(a), Message::DisplayContentChanged(b)) => a@ == b@,
            _ => false,
        }
    }
}

impl Clone for Message {
    fn clone(&self) -> (copy: Message)
        ensures
            self.same_as(copy),
    {
        match self {
            Message::ButtonPressed(token) => Message::ButtonPressed(*token),
            Message::DisplayContentChanged(text) => Message::DisplayContentChanged(text.clone()),
        }
    }
}

/// The hexadecimal screen: an evaluator in base 16 and the text on display.
pub struct HexCalcState {
    calculator: Calculator,
    display_content: String,
}

impl View for HexCalcState {
    type V = ScreenState;

    closed spec fn view(&self) -> ScreenState {
        ScreenState { calculator: self.calculator@, display_content: self.display_content@ }
    }
}

impl HexCalcState {
    /// The screen before anything was pressed.
    pub fn new() -> (screen: HexCalcState)
        ensures
            screen@ == ScreenState::fresh(16),
    {
        HexCalcState { calculator: Calculator::new(16), display_content: String::new() }
    }

    /// What the button of `token` shows on this screen.
    pub fn label(token: Token) -> (text: String)
        ensures
            text@ == token.text(16),
    {
        token.render(16)
    }

    /// The screen's evaluator.
    pub fn calculator(&self) -> (calculator: &Calculator)
        ensures
            calculator@ == self@.calculator,
    {
        &self.calculator
    }

    /// The text in the display.
    pub fn display_content(&self) -> (shown: &String)
        ensures
            shown@ == self@.display_content,
    {
        &self.display_content
    }

    /// Takes in one message: a pressed button changes the screen, typed text
    /// does not.
    pub fn update(&mut self, message: Message)
        ensures
            final(self)@ == (match message {
                Message::ButtonPressed(token) => old(self)@.press(token),
                Message::DisplayContentChanged(_) => old(self)@,
            }),
    {
        match message {
            Message::ButtonPressed(token) => {
                press(&mut self.calculator, &mut self.display_content, token);
            },
            Message::DisplayContentChanged(_) => {},
        }
    }
}

impl Default for HexCalcState {
    fn default() -> (screen: HexCalcState)
        ensures
            screen@ == ScreenState::fresh(16),
    {
        HexCalcState::new()
    }
}

} // verus!
