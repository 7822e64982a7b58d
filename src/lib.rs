//! Declarative validation rules for strings, numbers, collections and
//! structures.
//!
//! A [`Validator`] holds optional rules: an inclusive length bound, a regular
//! expression and an inclusive numeric bound. Any [`Validatable`] value is
//! checked against one with `validate`, which gives `Ok(())` or the message
//! of the first rule broken. Containers apply the same rule set to their own
//! length and to every element, and stop at the first failing element.
//! Structures check each annotated field with its own rule set through
//! [`FieldErrors`] and report every failing field, in order.
pub mod collection;
pub mod laws;
pub mod number;
pub mod string;
pub mod structures;
pub mod text;
pub mod validator;

pub use collection::CollectionExt;
pub use number::NumberExt;
pub use string::StringExt;
pub use structures::{FieldErrors, Validate};
pub use text::Decimal;
pub use validator::{Validatable, Validator};
