//! Source-position algebra and the syntax kind vocabulary of a small
//! expression language.

pub mod kind;
pub mod span;

pub use kind::Kind;
pub use span::{IntoSpan, Span};
