//! An exact, thread-safe counter, a model of its linearized histories with
//! the laws that hold of them, and a line search over text.

pub mod counter;
pub mod history;
pub mod grep;
