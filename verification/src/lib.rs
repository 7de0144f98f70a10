//! Catalog of binary-encodable event-log record types ("chunks").
//!
//! One declaration per record drives three derived artifacts that must stay
//! consistent: a value-object model with constructors, map views and textual
//! renderings; exact encoders into the teehistorian binary wire format; and a
//! statically generated type-stub document for external tooling.

pub mod catalog;
pub mod compile;
pub mod convert;
pub mod decl;
pub mod errors;
pub mod ident;
pub mod record;
pub mod reflect;
pub mod stubs;
pub mod text;
pub mod values;
pub mod wire;
