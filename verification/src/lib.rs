//! Rendering of non-negative integers in a variety of numeral systems:
//! positional notation, bijective numeration, sign-value (additive)
//! notation, repeating symbols, fixed symbol tables, and Chinese numerals.

pub mod catalog;
pub mod chinese;
pub mod digits;
pub mod engine;
pub mod laws;
pub mod renderers;
pub mod system;
pub mod text;

pub use catalog::NumeralSystem;
pub use engine::render;
pub use engine::validate;
pub use engine::RepresentedNumber;
pub use system::AdditiveEntry;
pub use system::ChineseCase;
pub use system::ChineseVariant;
pub use system::NumeralSystemKind;
pub use system::RepresentationError;
