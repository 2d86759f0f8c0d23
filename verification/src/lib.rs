//! A tree-walking evaluator for a small expression language over 64-bit
//! signed integers and booleans.
//!
//! An expression is a finite tree. [`eval`] reduces it to a [`Value`] or
//! reports why it has none: a division by zero, or a result that does not
//! fit in 64 bits. The meaning of every tree is fixed by the `outcome` spec
//! functions, and each evaluator returns exactly that.

pub mod arith;
pub mod boolean;
pub mod error;
pub mod expr;
pub mod laws;

pub use arith::{eval_arith_expr, ArithExpr, BinArithOp};
pub use boolean::{eval_bool_expr, ArithCmpOp, BinLogicOp, BoolExpr};
pub use error::EvalError;
pub use expr::{eval, Expr, Value};
