//! The calculator as a whole: one screen for each numeral system, each with
//! an evaluator of its own, and the mode that says which of them is shown.

use vstd::prelude::*;
use crate::binary::BinCalcState;
use crate::dec::DecCalcState;
use crate::hex::HexCalcState;
use crate::screen::ScreenState;
use crate::types::CalculatorMode;

verus! {

/// What reaches the calculator.
#[derive(Debug)]
pub enum Message {
    /// A message for the decimal screen.
    DecMessage(crate::dec::Message),
    /// A message for the binary screen.
    BinMessage(crate::binary::Message),
    /// A message for the hexadecimal screen.
    HexMessage(crate::hex::Message),
    /// The mode button was pressed.
    CycleMode,
}

impl Message {
    /// Whether `other` says what this message says.
    pub open spec fn same_as(self, other: Message) -> bool {
        match (self, other) {
            (Message::DecMessage(a), Message::DecMessage(b)) => a.same_as(b),
            (Message::BinMessage(a), Message::BinMessage(b)) => a.same_as(b),
            (Message::HexMessage(a), Message::HexMessage(b)) => a.same_as(b),
            (Message::CycleMode, Message::CycleMode) => true,
            _ => false,
        }
    }
}

impl Clone for Message {
    fn clone(&self) -> (copy: Message)
        ensures
            self.same_as(copy),
    {
        match self {
            Message::DecMessage(message) => Message::DecMessage(message.clone()),
            Message::BinMessage(message) => Message::BinMessage(message.clone()),
            Message::HexMessage(message) => Message::HexMessage(message.clone()),
            Message::CycleMode => Message::CycleMode,
        }
    }
}

/// What the calculator holds at one moment.
pub struct ShellState {
    pub dec_state: ScreenState,
    pub bin_state: ScreenState,
    pub hex_state: ScreenState,
    pub current_mode: CalculatorMode,
}

impl ShellState {
    /// The calculator at start: three fresh screens, the decimal one shown.
    pub open spec fn fresh() -> ShellState {
        ShellState {
            dec_state: ScreenState::fresh(10),
            bin_state: ScreenState::fresh(2),
            hex_state: ScreenState::fresh(16),
            current_mode: CalculatorMode::Decimal,
        }
    }

    /// The calculator after `message`. A screen's message changes that screen
    /// and no other, whichever is shown. The mode button moves on to the next
    /// mode and changes no screen.
    pub open spec fn update(self, message: Message) -> ShellState {
        match message {
            Message::DecMessage(crate::dec::Message::ButtonPressed(token)) => ShellState {
                dec_state: self.dec_state.press(token),
                ..self
            },
            Message::BinMessage(crate::binary::Message::ButtonPressed(token)) => ShellState {
                bin_state: self.bin_state.press(token),
                ..self
            },
            Message::HexMessage(crate::hex::Message::ButtonPressed(token)) => ShellState {
                hex_state: self.hex_state.press(token),
                ..self
            },
            Message::CycleMode => ShellState { current_mode: self.current_mode.next(), ..self },
            _ => self,
        }
    }
}

/// The calculator: three screens and the current mode.
pub struct CryoCalc {
    dec_state: DecCalcState,
    bin_state: BinCalcState,
    hex_state: HexCalcState,
    current_mode: CalculatorMode,
}

impl View for CryoCalc {
    type V = ShellState;

    closed spec fn view(&self) -> ShellState {
        ShellState {
            dec_state: self.dec_state@,
            bin_state: self.bin_state@,
            hex_state: self.hex_state@,
            current_mode: self.current_mode,
        }
    }
}

impl CryoCalc {
    /// The calculator at start.
    pub fn new() -> (shell: CryoCalc)
        ensures
            shell@ == ShellState::fresh(),
    {
        CryoCalc {
            dec_state: DecCalcState::new(),
            bin_state: BinCalcState::new(),
            hex_state: HexCalcState::new(),
            current_mode: CalculatorMode::Decimal,
        }
    }

    /// The decimal screen.
    pub fn dec_state(&self) -> (screen: &DecCalcState)
        ensures
            screen@ == self@.dec_state,
    {
        &self.dec_state
    }

    /// The binary screen.
    pub fn bin_state(&self) -> (screen: &BinCalcState)
        ensures
            screen@ == self@.bin_state,
    {
        &self.bin_state
    }

    /// The hexadecimal screen.
    pub fn hex_state(&self) -> (screen: &HexCalcState)
        ensures
            screen@ == self@.hex_state,
    {
        &self.hex_state
    }

    /// The mode whose screen is shown.
    pub fn current_mode(&self) -> (mode: CalculatorMode)
        ensures
            mode == self@.current_mode,
    {
        self.current_mode
    }

    /// Takes in one message.
    pub fn update(&mut self, message: Message)
        ensures
            final(self)@ == old(self)@.update(message),
    {
        match message {
            Message::DecMessage(msg) => self.dec_state.update(msg),
            Message::BinMessage(msg) => self.bin_state.update(msg),
            Message::HexMessage(msg) => self.hex_state.update(msg),
            Message::CycleMode => {
                self.current_mode = self.current_mode.next();
            },
        }
    }
}

impl Default for CryoCalc {
    fn default() -> (shell: CryoCalc)
        ensures
            shell@ == ShellState::fresh(),
    {
        CryoCalc::new()
    }
}

} // verus!
