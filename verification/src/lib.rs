//! Declaration-level CSS: the value of a declaration `name: value` is read from a
//! token cursor into a [`Property`] and written back as CSS text.
//!
//! The table of known properties is in [`ident`], the lookup of a name in [`names`].
//! A name of the table has its value read by the grammar of the property; the
//! grammars themselves are supplied through the traits of [`traits`]. Anything else
//! is kept as a [`CustomProperty`], raw. What is assumed of `cssparser` is stated in
//! [`cursor`].

pub mod cursor;
pub mod custom;
pub mod ident;
pub mod names;
pub mod printer;
pub mod properties;
pub mod traits;

pub use custom::CustomProperty;
pub use ident::{Multiplicity, PropertyId, ValueKind};
pub use printer::Printer;
pub use properties::{Payload, Property};
pub use traits::{Parse, ParseFailure, ToCss};
