//! Conversions and type inspection for enums whose only purpose is to
//! enumerate a set of types: each variant wraps one value, and no two
//! variants wrap the same type.
//!
//! For such an enum, say
//!
//! ```text
//! enum Value { Number(i64), Text(String), Flag(bool) }
//! ```
//!
//! the implementations of five capabilities are emitted as source text:
//! `From<T>` and `TryInto<T>` for each payload type `T`, [`traits::TryAsRef`]
//! and [`traits::TryAsMut`] for each `T`, and [`traits::TypedContainer`].
//!
//! * [`syntax`] reads a definition out of the syntax tree of a derive input.
//! * [`schema`] checks a definition and reduces it to a schema.
//! * [`synth`] emits the implementations of a capability from a schema.
//! * [`pipeline`] joins the three: one function for each derive.
//! * [`container`] states what the emitted implementations do, and proves
//!   what follows for every schema: a payload comes back as it went in, it
//!   cannot be had as another type, and so on.
//! * [`traits`] holds the interfaces that the emitted implementations target.

pub mod container;
pub mod pipeline;
pub mod schema;
pub mod synth;
pub mod syntax;
pub mod traits;
