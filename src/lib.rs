//! Errors that carry an ordered trail of the source locations they passed
//! through on their way up the call stack.

mod cascade_error;
mod code_trace;
mod propagation;
mod trace_store;

pub use cascade_error::{Cascadable, CascadeError};
pub use code_trace::{decimal, digit_char, CodeTrace};
pub use propagation::{begin, lemma_hops_in_call_order, relay, translate};
