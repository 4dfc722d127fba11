//! The capability set a shared backing must supply.
//!
//! A shared backing is any indirect wrapper (reference-counted or otherwise)
//! around a target value.  The one capability every backing must have is a
//! dereference that always reveals the same target value; duplication is a
//! further, optional capability.  Thread safety is not a capability of its
//! own: a container built over a backing that may cross threads (such as
//! `Arc`) may itself cross threads, by composition alone.

use vstd::prelude::*;
use std::rc::Rc;
use std::sync::Arc;

verus! {

/// A wrapper that can reveal a reference to the target value it holds.
///
/// The dereference must always yield the same target value for the same
/// wrapper value; `target_view` names that value, and `const_deref` is
/// bound to it.
pub trait ConstDeref {
    type Target: View + ?Sized;

    /// The target value this wrapper holds, as its abstract view.
    spec fn target_view(&self) -> <Self::Target as View>::V;

    /// Reveal the held target.
    fn const_deref(&self) -> (r: &Self::Target)
        ensures
            r@ == self.target_view(),
    ;
}

/// Conversion into a shared backing, from any wrapper that holds the same
/// target type.
///
/// Unlike a plain conversion, the contract requires the held target value to
/// survive the trip.
pub trait SharedFrom<T: ConstDeref>: ConstDeref<Target = <T as ConstDeref>::Target> + Sized {
    fn shared_from(t: T) -> (r: Self)
        ensures
            r.target_view() == t.target_view(),
    ;
}

impl<S: ConstDeref> SharedFrom<S> for S {
    fn shared_from(t: S) -> (r: S) {
        t
    }
}

/// The duplication capability of a shared backing: a duplicate holds the
/// same target as the original.
///
/// A container needs this of its shared backing to be duplicable as a
/// whole.
pub trait DuplicableBacking: ConstDeref + Sized {
    fn duplicate_backing(&self) -> (r: Self)
        ensures
            r.target_view() == self.target_view(),
    ;
}

impl<T: View + ?Sized> ConstDeref for Rc<T> {
    type Target = T;

    open spec fn target_view(&self) -> T::V {
        (**self).view()
    }

    fn const_deref(&self) -> (r: &T) {
        &**self
    }
}

impl<T: View + ?Sized> ConstDeref for Arc<T> {
    type Target = T;

    open spec fn target_view(&self) -> T::V {
        (**self).view()
    }

    fn const_deref(&self) -> (r: &T) {
        &**self
    }
}

impl<T: ConstDeref> ConstDeref for Box<T> {
    type Target = T::Target;

    open spec fn target_view(&self) -> <T::Target as View>::V {
        (**self).target_view()
    }

    fn const_deref(&self) -> (r: &T::Target) {
        (**self).const_deref()
    }
}

impl<T: View + ?Sized> DuplicableBacking for Rc<T> {
    fn duplicate_backing(&self) -> (r: Self) {
        self.clone()
    }
}

impl<T: View + ?Sized> DuplicableBacking for Arc<T> {
    fn duplicate_backing(&self) -> (r: Self) {
        self.clone()
    }
}

impl<T: DuplicableBacking> DuplicableBacking for Box<T> {
    fn duplicate_backing(&self) -> (r: Self) {
        Box::new((**self).duplicate_backing())
    }
}

} // verus!
