//! The pool's instructions: what each one checks, computes and records.

pub mod deposit;
pub mod initialize_pool;
pub mod shared;
pub mod swap;
pub mod withdraw;
