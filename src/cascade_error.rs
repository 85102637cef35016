use crate::code_trace::CodeTrace;
use crate::trace_store::{free_of, slots_of, store_new, store_push, store_slots};
use opt_vec::OptVec;
use vstd::prelude::*;

verus! {

/// An error value together with the trail of locations it passed through,
/// oldest first. The trail is never empty.
#[derive(Debug)]
pub struct CascadeError<E> {
    error: E,
    code_trace: OptVec<CodeTrace>,
}

impl<E> CascadeError<E> {
    /// Every slot of the store is filled, none is free, and there is at
    /// least one: the trail is never empty.
    pub closed spec fn well_formed(self) -> bool {
        let s = slots_of(self.code_trace);
        &&& s.len() >= 1
        &&& free_of(self.code_trace).len() == 0
        &&& forall|i: int| 0 <= i < s.len() ==> (#[trigger] s[i]) is Some
    }

    /// The error value carried.
    pub closed spec fn error(self) -> E {
        self.error
    }

    /// The trail of locations, oldest first.
    pub closed spec fn trace(self) -> Seq<CodeTrace> {
        slots_of(self.code_trace).map_values(|o: Option<CodeTrace>| o->0)
    }

    /// A new value that carries `error`, with `trace` as its only location.
    pub(crate) fn lift(error: E, trace: CodeTrace) -> (r: CascadeError<E>)
        ensures
            r.well_formed(),
            r.error() == error,
            r.trace() == seq![trace],
    {
        let mut code_trace = store_new();
        store_push(&mut code_trace, trace);
        let r = CascadeError { error, code_trace };
        assert(r.trace() =~= seq![trace]);
        r
    }

    /// A shared borrow of the error value; the trail stays.
    pub fn inner(&self) -> (r: &E)
        ensures
            *r == self.error(),
    {
        &self.error
    }

    /// The error value, with the trail dropped.
    pub fn into_inner(self) -> (r: E)
        ensures
            r == self.error(),
    {
        self.error
    }

    /// Turns the error into `func` of it and appends `trace` to the trail,
    /// which is carried over whole.
    pub fn map<F, Q: Cascadable>(self, func: F, trace: CodeTrace) -> (r: CascadeError<Q>) where
        F: FnOnce(E) -> Q,

        requires
            self.well_formed(),
            func.requires((self.error(),)),
        ensures
            r.well_formed(),
            func.ensures((self.error(),), r.error()),
            r.trace() == self.trace().push(trace),
    {
        let CascadeError { error, code_trace } = self;
        let mut code_trace = code_trace;
        store_push(&mut code_trace, trace);
        let r = CascadeError { error: func(error), code_trace };
        assert(r.trace() =~= self.trace().push(trace));
        r
    }

    /// Appends `trace` to the trail; the error value stays.
    pub fn push(&mut self, trace: CodeTrace)
        requires
            old(self).well_formed(),
        ensures
            final(self).well_formed(),
            final(self).error() == old(self).error(),
            final(self).trace() == old(self).trace().push(trace),
    {
        store_push(&mut self.code_trace, trace);
        assert(self.trace() =~= old(self).trace().push(trace));
    }

    /// The trail of locations, oldest first.
    pub fn code_trace(&self) -> (r: Vec<CodeTrace>)
        requires
            self.well_formed(),
        ensures
            r@ == self.trace(),
    {
        let slots = store_slots(&self.code_trace);
        let mut r: Vec<CodeTrace> = Vec::new();
        let mut i: usize = 0;
        while i < slots.len()
            invariant
                slots@ == slots_of(self.code_trace),
                forall|j: int| 0 <= j < slots@.len() ==> (#[trigger] slots@[j]) is Some,
                i <= slots.len(),
                r@ == self.trace().subrange(0, i as int),
            decreases slots.len() - i,
        {
            match slots[i] {
                Some(t) => {
                    r.push(t);
                },
                None => {},
            }
            i = i + 1;
            assert(r@ =~= self.trace().subrange(0, i as int));
        }
        assert(r@ =~= self.trace());
        r
    }
}

/// A type whose values can be wrapped into a `CascadeError`.
pub trait Cascadable: Sized {
    /// Wraps `self` with `trace` as the only location of its trail.
    fn into_cascade(self, trace: CodeTrace) -> (r: CascadeError<Self>)
        ensures
            r.well_formed(),
            r.error() == self,
            r.trace() == seq![trace],
    {
        CascadeError::lift(self, trace)
    }
}

} // verus!
