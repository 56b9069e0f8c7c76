//! Conversion between numeric representations written as text: IEEE single
//! and half precision bit patterns, decimal numerals, Q-format fixed point in
//! 16- and 32-bit containers, and packed or written-out complex numbers.
//!
//! Everything here works on integers. Reading a decimal numeral as an IEEE
//! float, and writing an IEEE float back out in decimal, is left to the
//! caller: the converters take and hand back the float's bit pattern.

pub mod converter;
pub mod factory;
pub mod fixed;
pub mod hex;
pub mod ieee;
pub mod laws;
pub mod text;
pub mod value_type;

pub use converter::{Converter, Input, InputForm, Output, ValueConverter};
pub use factory::{ConverterFactory, ValueConverterFactory};
pub use value_type::ValueType;
