//! The three steps of propagation: `begin` where an error first arises,
//! `relay` where it passes through a frame unchanged, and `translate` where it
//! crosses into a frame that expects another error type. Each takes the
//! location of its own call site.
use crate::cascade_error::{Cascadable, CascadeError};
use crate::code_trace::CodeTrace;
use vstd::prelude::*;

verus! {

/// Wraps a raw error at the place where it arises.
pub fn begin<E: Cascadable>(error: E, trace: CodeTrace) -> (r: CascadeError<E>)
    ensures
        r.well_formed(),
        r.error() == error,
        r.trace() == seq![trace],
{
    error.into_cascade(trace)
}

/// Passes a wrapped error on through a frame, recording the frame.
pub fn relay<E>(error: CascadeError<E>, trace: CodeTrace) -> (r: CascadeError<E>)
    requires
        error.well_formed(),
    ensures
        r.well_formed(),
        r.error() == error.error(),
        r.trace() == error.trace().push(trace),
{
    let mut e = error;
    e.push(trace);
    e
}

/// Passes a wrapped error on into a frame with another error type, turning
/// the error by `func` and recording the frame.
pub fn translate<E, Q: Cascadable, F>(error: CascadeError<E>, func: F, trace: CodeTrace) -> (r:
    CascadeError<Q>) where F: FnOnce(E) -> Q
    requires
        error.well_formed(),
        func.requires((error.error(),)),
    ensures
        r.well_formed(),
        func.ensures((error.error(),), r.error()),
        r.trace() == error.trace().push(trace),
{
    error.map(func, trace)
}

/// Along a chain of hops that starts with `begin` at `origin`, each hop a
/// `relay` or a `translate` that appends its location, `traces[i]` is the
/// trail after `i` hops. After all `n` hops the trail holds exactly `n + 1`
/// locations: the origin, then each hop's location in call order, none
/// dropped, merged or moved.
pub proof fn lemma_hops_in_call_order(
    origin: CodeTrace,
    hops: Seq<CodeTrace>,
    traces: Seq<Seq<CodeTrace>>,
)
    requires
        traces.len() == hops.len() + 1,
        traces[0] == seq![origin],
        forall|i: int| 0 <= i < hops.len() ==> #[trigger] traces[i + 1] == traces[i].push(hops[i]),
    ensures
        traces[hops.len() as int] == seq![origin] + hops,
        traces[hops.len() as int].len() == hops.len() + 1,
    decreases hops.len(),
{
    if hops.len() > 0 {
        let n = hops.len() - 1;
        lemma_hops_in_call_order(origin, hops.take(n as int), traces.take(n + 1));
        assert(traces[n as int] == seq![origin] + hops.take(n as int));
        assert(traces[n + 1] == traces[n as int].push(hops[n as int]));
        assert(seq![origin] + hops =~= (seq![origin] + hops.take(n as int)).push(hops[n as int]));
    } else {
        assert(seq![origin] + hops =~= seq![origin]);
    }
}

} // verus!
