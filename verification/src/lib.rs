//! Resolution and type checking of function calls in an expression language.
//!
//! A call `ident(arg, keyword: arg, ..) -> |v1, v2| { block }` is resolved in
//! two steps. [`Builder::new`] finds the function in the registry, binds every
//! argument to a parameter, checks the arguments against the kinds that the
//! parameters accept, and checks the closure against the signatures that the
//! function declares; it brings the variables of the closure into scope for
//! the caller to compile the block. [`Builder::compile`] takes them out of
//! scope again, checks the block, lets the function compile the call, and
//! returns the [`FunctionCall`].
//!
//! The rules are stated in `binding` and `placement` over sequences and maps;
//! `laws` holds what follows from them for every call. The functions are
//! verified against these rules. What the host brings along, its expressions
//! and its functions, comes in through the traits [`Expression`] and
//! [`Function`].

pub mod argument;
pub mod binding;
pub mod builder;
pub mod call;
pub mod constant;
pub mod diagnostic;
pub mod error;
pub mod expression;
pub mod function;
pub mod ident;
pub mod kind;
pub mod labels;
pub mod laws;
pub mod levenshtein;
pub mod notes;
pub mod placement;
pub mod span;
pub mod state;
pub mod table;
pub mod text;
pub mod type_def;

pub use crate::builder::Builder;
pub use crate::call::FunctionCall;
pub use crate::error::Error;
pub use crate::expression::Expression;
pub use crate::function::Function;
