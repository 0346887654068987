//! Extraction of an inheritance-aware type schema from annotated source
//! modules.
//!
//! A [`schema::Module`] takes one source file through three steps. Loading
//! parses the file and keeps the declarations that matter: enums and structs
//! tagged `#[visited_node]`, imports and constants, and invocations of
//! `inherit_variants!`. Expanding rewrites each such invocation into the enum
//! that its body declares, together with the names of the enums whose
//! variants it inherits. Building exports the enums and structs that remain
//! as a [`schema::Schema`].
//!
//! All syntax is held as plain values: a declaration is the text of its
//! tokens and the few facts that are read from it ([`syntax`], [`token`]).
//! Reading Rust syntax is left to `syn` and `proc_macro2`, which are asked
//! through the small functions of [`parser`] and through the lexer of
//! [`token`]; their answers are taken on trust and named, and everything
//! that is decided from them is proved: which declarations are kept, how
//! variants and inheritance markers follow each other ([`inherit`]), what a
//! module holds after each step ([`schema`]), and what holds of all files
//! and modules ([`laws`]).

pub mod inherit;
pub mod laws;
pub mod parser;
pub mod schema;
pub mod syntax;
pub mod token;
