//! The pool of pre-warmed workers, without limits.

pub mod zygote;
