//! A schema compiler for unit-of-work metrics.
//!
//! A schema is a record or a union whose fields carry naming, grouping, unit
//! and nesting attributes. From a schema this library derives, as plain data,
//! the table of metric names under every case style, the shape of the entry
//! that mirrors the schema, the transform that closes a live value into that
//! entry, and the ordered collection of sample-group tags.
//!
//! Syntax that the compiler only carries along (types, paths, visibility,
//! generics, attributes) is held by handle; the front-end that parsed it keeps
//! the fragments and renders the plans back into code.
//!
//! The way through the library:
//!
//! - [`input`] and [`source`] are what the front-end hands over;
//! - [`attrs`], [`field_attrs`] and [`enums`] validate the attributes of a
//!   schema, of its fields and of its cases;
//! - [`inflect`] resolves a metric name under a case style;
//! - [`structs`] and [`enums`] build the entry that mirrors a schema, and
//!   [`close_impl`] the transform that closes a schema into it;
//! - [`entry_impl`] and [`value_impl`] say how an entry writes itself, and
//!   [`chain`] joins its sample groups;
//! - [`metrics`] takes a declaration through all of that;
//! - [`emit`] says what the generated code writes, so that the names that go
//!   out can be told without running it, and [`close`] holds the traits
//!   that closing rests on;
//! - [`laws`] states what holds of the whole.

pub mod attrs;
pub mod chain;
pub mod close;
pub mod close_impl;
pub mod emit;
pub mod entry_impl;
pub mod enums;
pub mod field_attrs;
pub mod inflect;
pub mod input;
pub mod laws;
pub mod metrics;
pub mod seqs;
pub mod source;
pub mod structs;
pub mod text;
pub mod value_impl;
