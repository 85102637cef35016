//! The trace's storage: an `OptVec` of the `opt_vec` crate, seen through two
//! names for what it holds.
use crate::code_trace::CodeTrace;
use opt_vec::OptVec;
use vstd::prelude::*;

verus! {

#[verifier::external_type_specification]
#[verifier::external_body]
#[verifier::reject_recursive_types(T)]
pub struct ExOptVec<T>(OptVec<T>);

/// The slots of an `OptVec`, in index order (`None` for a removed item).
pub uninterp spec fn slots_of(v: OptVec<CodeTrace>) -> Seq<Option<CodeTrace>>;

/// The indices of freed slots that an `OptVec` fills before it grows, the
/// next one to be filled last.
pub uninterp spec fn free_of(v: OptVec<CodeTrace>) -> Seq<usize>;

/// Relies on `OptVec::new`: no slots, and no free ones.
#[verifier::external_body]
pub(crate) fn store_new() -> (r: OptVec<CodeTrace>)
    ensures
        slots_of(r) == Seq::<Option<CodeTrace>>::empty(),
        free_of(r) == Seq::<usize>::empty(),
{
    OptVec::new()
}

/// Relies on `OptVec::push`: with no free slot, the value goes into a new
/// last slot, whose index is returned.
#[verifier::external_body]
pub(crate) fn store_push(v: &mut OptVec<CodeTrace>, t: CodeTrace) -> (r: usize)
    requires
        free_of(*old(v)).len() == 0,
    ensures
        slots_of(*final(v)) == slots_of(*old(v)).push(Some(t)),
        free_of(*final(v)) == free_of(*old(v)),
        r == slots_of(*old(v)).len(),
{
    v.push(t)
}

/// Relies on `IntoIterator for &OptVec`: it walks the slots in index order.
#[verifier::external_body]
pub(crate) fn store_slots(v: &OptVec<CodeTrace>) -> (r: Vec<Option<CodeTrace>>)
    ensures
        r@ == slots_of(*v),
{
    v.into_iter().copied().collect()
}

} // verus!
