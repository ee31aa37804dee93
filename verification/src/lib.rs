//! An export engine for a compiler's typed program representation.
//!
//! The engine takes plain images of the host compiler's nodes (`source`) and
//! turns them into portable values (`types`) that hold no reference to the
//! host. Every conversion goes through one relation, [`SInto`], and is given
//! the translation state by reference.

pub mod constant;
pub mod diagnostics;
pub mod export;
pub mod portable;
pub mod sinto;
pub mod source;
pub mod span;
pub mod state;
pub mod types;

pub use export::{inline_macro_invocations, Item};
pub use portable::Portable;
pub use sinto::SInto;
pub use span::{argument_span_of_mac_call, translate_span, Loc, Span};
