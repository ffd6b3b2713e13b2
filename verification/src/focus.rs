//! The focus cell: a coordinate behind `atomic::Atomic`, shared by reference
//! and read or overwritten by any holder without a lock.
//!
//! What a load returns depends on the stores of every other holder, so the
//! declarations below promise nothing about the values that pass through a
//! cell; callers must be correct for every coordinate a load may yield.

use atomic::Atomic;
use std::sync::atomic::Ordering;
use vstd::prelude::*;

verus! {

/// `atomic::Atomic<T>`, taken as an opaque type: nothing of its content is
/// visible to specifications.
#[verifier::external_type_specification]
#[verifier::external_body]
#[verifier::reject_recursive_types(T)]
pub struct ExAtomic<T: Copy>(atomic::Atomic<T>);

/// `atomic::Atomic::new` wraps a value in a fresh cell. Nothing is claimed
/// about the cell.
pub assume_specification<T: Copy>[ Atomic::<T>::new ](v: T) -> Atomic<T>;

/// `atomic::Atomic::load` returns a value that was stored in the cell. It
/// panics on the orderings `Release` and `AcqRel`, which are excluded here;
/// nothing is claimed about the value returned.
pub assume_specification<T: Copy>[ Atomic::<T>::load ](cell: &Atomic<T>, order: Ordering) -> T
    requires
        !(order is Release),
        !(order is AcqRel),
;

} // verus!
