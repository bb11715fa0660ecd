//! Screens that the calculator can switch between.

pub mod regular;

pub use regular::RegularCalculator;
