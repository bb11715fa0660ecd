//! A push-button calculator for decimal, binary and hexadecimal integers.
//!
//! The core is an incremental evaluator: tokens arrive one press at a time,
//! digits are folded into a pending number, and on request the expression is
//! reduced to a single value, products before sums and parentheses first.
//!
//! - [`types`]: the tokens and how each is shown.
//! - [`numeral`]: the text of an integer in a base.
//! - [`state`]: the evaluator's state as a mathematical value, and what each
//!   token does to it.
//! - [`reduction`]: what a sequence of tokens is worth.
//! - [`calculator`]: the evaluator itself.
//! - [`laws`]: what holds of every evaluator.
//! - [`screen`], [`dec`], [`binary`], [`hex`], [`regular`], [`screens`]: the
//!   calculator screens, each an evaluator and the text on its display.
//! - [`shell`]: the screens together with the mode switch.

pub mod binary;
pub mod calculator;
pub mod dec;
pub mod hex;
pub mod laws;
pub mod numeral;
pub mod reduction;
pub mod regular;
pub mod screen;
pub mod screens;
pub mod shell;
pub mod state;
pub mod types;
