//! A lazy macro-expansion engine for a self-describing data-interchange format.
//!
//! Input data arrives as pre-tokenized expressions stored in an arena
//! ([`context::EncodingContext`]). The engine turns those expressions (literal
//! values, macro invocations and struct fields that may themselves be macros)
//! into a flattened, order-preserving stream of expanded values and fields.
//!
//! - [`value`]: the expressions of the arena and the field positions of raw structs.
//! - [`macro_id`]: macro identifiers and system-macro addresses.
//! - [`context`]: the arena, the symbol table and the macro table with its
//!   compiled templates and their struct field indexes.
//! - [`evaluator`]: what an expression expands to, and the stack of
//!   expansion frames that produces it one value at a time.
//! - [`expanded_struct`]: the fields of a struct after expansion and the
//!   three-state iterator that produces them; field lookup.
//! - [`field_exprs`]: the struct iterator for tooling, which also yields the
//!   unexpanded field expressions.
//! - [`expanded_value`]: resolving an expanded value to a scalar or a container.
//! - [`raw_reader`]: cursors over the tokens of the text and binary encodings.
//! - [`laws`]: properties of expansion, proved for all inputs.
#![allow(non_camel_case_types)]

pub mod bytes_ref;
pub mod context;
pub mod evaluator;
pub mod expanded_struct;
pub mod expanded_value;
pub mod field_exprs;
pub mod laws;
pub mod macro_id;
pub mod raw_reader;
pub mod value;
