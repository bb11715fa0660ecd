//! The regular calculator's entry among the switchable screens. It holds no
//! evaluator: it only knows whether it is switched on.

use vstd::prelude::*;

verus! {

/// What reaches the screen.
#[derive(Debug, Clone, Copy)]
pub enum Message {
    /// The user asked for another mode. The switch is made by whoever owns
    /// the screens, so the screen itself has nothing to do.
    SwitchMode,
}

/// The screen's entry: a single switch.
pub struct RegularCalculator {
    state: bool,
}

impl RegularCalculator {
    /// Whether the screen is switched on.
    pub closed spec fn is_on(&self) -> bool {
        self.state
    }

    /// The screen, switched on.
    pub fn new() -> (screen: RegularCalculator)
        ensures
            screen.is_on(),
    {
        RegularCalculator { state: true }
    }

    /// Whether the screen is switched on.
    #[verifier::when_used_as_spec(is_on)]
    pub fn state(&self) -> (on: bool)
        ensures
            on == self.is_on(),
    {
        self.state
    }

    /// Takes in one message. No message changes the screen.
    pub fn update(&mut self, message: Message)
        ensures
            *final(self) == *old(self),
    {
        match message {
            Message::SwitchMode => {},
        }
    }
}

} // verus!
