//! Traits for types that write their value into one raw kernel structure.

use vstd::prelude::*;

use crate::errors::PfError;

verus! {

/// Types that write their value into one raw structure without risk of
/// failing.
pub trait CopyTo<T: View> {
    /// What the destination's view becomes when the value is written over
    /// the old contents.
    spec fn copied(&self, old_dst: T::V) -> T::V;

    /// Write the value into `dst`.
    fn copy_to(&self, dst: &mut T)
        ensures
            final(dst)@ == self.copied(old(dst)@),
    ;
}

/// Types that try to write their value into one raw structure, failing on
/// values the structure cannot carry.
pub trait TryCopyTo<T: View> {
    /// What the write yields: the destination's new view, or the error the
    /// value is rejected with.
    spec fn try_copied(&self, old_dst: T::V) -> Result<T::V, PfError>;

    /// Try to write the value into `dst`. On failure the destination must
    /// not be relied on; it is a partially written scratch structure.
    fn try_copy_to(&self, dst: &mut T) -> (r: Result<(), PfError>)
        ensures
            r is Ok ==> self.try_copied(old(dst)@) == Ok::<T::V, PfError>(final(dst)@),
            r is Err ==> self.try_copied(old(dst)@) == Err::<T::V, PfError>(r->Err_0),
    ;
}

} // verus!
