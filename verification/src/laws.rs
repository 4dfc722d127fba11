//! Properties that hold across the container's operations.
//!
//! Each law is stated over the contracts of the operations it relates: its
//! premises are exactly what those operations ensure, and its conclusion is
//! the property a caller may rely on without knowing which state any
//! container is in.

use vstd::prelude::*;
use vstd::std_specs::cmp::PartialEqSpec;
use vstd::std_specs::cmp::PartialOrdSpec;
use crate::capability::ConstDeref;
use crate::container::Supercow;
use crate::target::SafeBorrow;
use crate::target::TargetEq;
use crate::target::TargetOrd;

verus! {

/// Dereference is stable: what a container reveals is a function of the
/// container value alone, so repeated reads of one container — including
/// after the container has been moved — reveal one and the same target
/// value.  The premises are the ensures of `dereference` for two calls on
/// the same container.
pub proof fn lemma_dereference_stable<'a, OWNED, BORROWED, SHARED>(
    c: &Supercow<'a, OWNED, BORROWED, SHARED>,
    first: BORROWED::V,
    second: BORROWED::V,
)
where
    OWNED: SafeBorrow<BORROWED>,
    BORROWED: View + ?Sized + 'a,
    SHARED: ConstDeref<Target = BORROWED>,
    requires
        first == c.dereferenced(),
        second == c.dereferenced(),
    ensures
        first == second,
{
}

/// Equality delegates to the target: two containers, in any combination of
/// states, compare equal exactly when the targets they stand for are equal.
/// In particular, containers standing for equal targets are interchangeable
/// under `==`, whether each owns, borrows, or shares its backing.
pub proof fn lemma_eq_delegates<'a, OWNED, BORROWED, SHARED>(
    a: &Supercow<'a, OWNED, BORROWED, SHARED>,
    b: &Supercow<'a, OWNED, BORROWED, SHARED>,
)
where
    OWNED: SafeBorrow<BORROWED>,
    BORROWED: View + TargetEq + ?Sized + 'a,
    SHARED: ConstDeref<Target = BORROWED>,
    ensures
        Supercow::<'a, OWNED, BORROWED, SHARED>::obeys_eq_spec(),
        a.eq_spec(b) <==> (a.dereferenced() == b.dereferenced()),
{
}

/// Ordering delegates to the target: two containers, in any combination of
/// states, order exactly as the targets they stand for do.
pub proof fn lemma_ord_delegates<'a, OWNED, BORROWED, SHARED>(
    a: &Supercow<'a, OWNED, BORROWED, SHARED>,
    b: &Supercow<'a, OWNED, BORROWED, SHARED>,
)
where
    OWNED: SafeBorrow<BORROWED>,
    BORROWED: View + TargetOrd + ?Sized + 'a,
    SHARED: ConstDeref<Target = BORROWED>,
    ensures
        Supercow::<'a, OWNED, BORROWED, SHARED>::obeys_partial_cmp_spec(),
        a.partial_cmp_spec(b) == Some(BORROWED::cmp_of(a.dereferenced(), b.dereferenced())),
{
}

/// Extraction agrees with dereference: the owned value `into_inner` hands
/// back, and the container `take_ownership` builds, both stand for exactly
/// the value `dereference` revealed immediately before the call.  The
/// premises are the ensures of those three operations on one container `c`.
pub proof fn lemma_extraction_matches_dereference<'a, OWNED, BORROWED, SHARED>(
    c: &Supercow<'a, OWNED, BORROWED, SHARED>,
    seen: BORROWED::V,
    extracted: &OWNED,
    taken: &Supercow<'static, OWNED, BORROWED, SHARED>,
)
where
    OWNED: SafeBorrow<BORROWED>,
    BORROWED: View + ?Sized + 'static,
    SHARED: ConstDeref<Target = BORROWED>,
    requires
        seen == c.dereferenced(),
        extracted@ == c.dereferenced(),
        taken.dereferenced() == c.dereferenced(),
    ensures
        extracted@ == seen,
        taken.dereferenced() == seen,
        taken.dereferenced() == extracted@,
{
}

/// Copy-on-write isolation: a duplicate stands for the same target as its
/// source the moment it is made, and after the duplicate alone has been
/// promoted and mutated — `to_mut` ensures the promoted container is owned
/// and stands for whatever value the caller leaves in the returned handle —
/// the untouched source still stands for the target both shared before.
pub proof fn lemma_cow_isolation<'a, OWNED, BORROWED, SHARED>(
    source: &Supercow<'a, OWNED, BORROWED, SHARED>,
    duplicate: &Supercow<'a, OWNED, BORROWED, SHARED>,
    promoted: &Supercow<'a, OWNED, BORROWED, SHARED>,
    left_in_handle: &OWNED,
)
where
    OWNED: SafeBorrow<BORROWED>,
    BORROWED: View + ?Sized + 'a,
    SHARED: ConstDeref<Target = BORROWED>,
    requires
        duplicate.dereferenced() == source.dereferenced(),
        promoted.is_owned(),
        promoted.dereferenced() == left_in_handle@,
    ensures
        source.dereferenced() == duplicate.dereferenced(),
        promoted.dereferenced() == left_in_handle@,
{
}

} // verus!
