//! Evaluation core of a small expression language that transforms structured
//! records.
//!
//! - [`kind`] and [`type_def`]: the static type descriptors, a set of value
//!   shapes with a fallibility flag.
//! - [`value`] and [`expression::error`]: what evaluation produces, a value
//!   or a failure.
//! - [`expression`]: the expressions and the contract that each kind of them
//!   meets: construction, static type, evaluation against one record and
//!   against a batch. [`expression::abort`] is the abort expression.
//! - [`context`]: the environment of one evaluation, for one record or for a
//!   batch.
//! - [`diagnostic`]: what is reported when construction rejects a tree.
//! - [`span`], [`node`], [`state`] and [`numeral`]: source positions, parsed
//!   constructs, the static environment, and decimal numerals for texts.
//!
//! Every type has a mathematical model, its view, and every function says
//! over these models what it returns or changes.

pub mod context;
pub mod diagnostic;
pub mod expression;
pub mod kind;
pub mod node;
pub mod numeral;
pub mod span;
pub mod state;
pub mod type_def;
pub mod value;

pub use context::{BatchContext, Context};
pub use expression::abort::Abort;
pub use expression::error::{ExpressionError, Resolved};
pub use expression::Expr;
pub use kind::{Kind, Shape};
pub use node::Node;
pub use span::Span;
pub use state::ExternalEnv;
pub use type_def::TypeDef;
pub use value::Value;
