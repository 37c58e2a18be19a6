//! Direct declaration extraction: a bottom-up reducer that turns parse events
//! (tokens and grammar-rule reductions) of one source file into a table of
//! top-level declarations without building a syntax tree.

pub mod pos;
pub mod names;
pub mod aast_defs;
pub mod typing_defs;
pub mod deep_copy;
pub mod node;
pub mod namespace;
pub mod decl_map;
pub mod token;
pub mod smart_constructors;
pub mod productions;
pub mod rx;
pub mod relative_path;
pub mod options;
pub mod ptr;
pub mod ord_set;
