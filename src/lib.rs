//! Building blocks for derive macros of a structural generic-programming
//! library: type-level labels for names, nested heterogeneous list types and
//! their constructors, field bindings of structs and variants, and the
//! generics of borrowing derivations. Generated code is a sequence of tokens.
pub mod token;
pub mod encode;
pub mod label;
pub mod hlist;
pub mod path;
pub mod fields;
pub mod generics;
