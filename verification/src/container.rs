//! The ownership container.
//!
//! A [`Supercow`] is in exactly one of three states: it owns its target, it
//! borrows it for a bounded lifetime, or it holds a shared backing that
//! reveals it.  Every operation's contract is stated over the one abstract
//! value the container stands for, [`Supercow::dereferenced`], so callers
//! never need to know which state is active.

use vstd::prelude::*;
use vstd::pervasive::unreached;
use std::sync::Arc;
use crate::capability::ConstDeref;
use crate::capability::DuplicableBacking;
use crate::capability::SharedFrom;
use crate::target::Duplicable;
use crate::target::MakeOwned;
use crate::target::TargetEq;
use crate::target::TargetOrd;
use crate::target::SafeBorrow;

verus! {

enum SupercowData<'a, OWNED, BORROWED: ?Sized + 'a, SHARED> {
    Owned(OWNED),
    Borrowed(&'a BORROWED),
    Shared(SHARED),
}

/// A container holding an owned, a borrowed, or a shared backing for one
/// target value of type `BORROWED`.
pub struct Supercow<'a, OWNED, BORROWED: ?Sized + 'a = OWNED, SHARED = Arc<BORROWED>> {
    state: SupercowData<'a, OWNED, BORROWED, SHARED>,
}

impl<'a, OWNED, BORROWED: ?Sized + 'a, SHARED> Supercow<'a, OWNED, BORROWED, SHARED> {
    /// The container directly owns its target.
    pub closed spec fn is_owned(&self) -> bool {
        self.state is Owned
    }

    /// The container borrows its target for the lifetime it was built with.
    pub closed spec fn is_borrowed(&self) -> bool {
        self.state is Borrowed
    }

    /// The container holds a shared backing for its target.
    pub closed spec fn is_shared(&self) -> bool {
        self.state is Shared
    }
}

impl<'a, OWNED, BORROWED, SHARED> Supercow<'a, OWNED, BORROWED, SHARED>
where
    OWNED: SafeBorrow<BORROWED>,
    BORROWED: View + ?Sized + 'a,
    SHARED: ConstDeref<Target = BORROWED>,
{
    /// The target value this container stands for, whichever state is
    /// active.  Every operation is specified against this value.
    pub closed spec fn dereferenced(&self) -> BORROWED::V {
        match self.state {
            SupercowData::Owned(o) => o.view(),
            SupercowData::Borrowed(b) => (*b).view(),
            SupercowData::Shared(s) => s.target_view(),
        }
    }

    /// The container owning `inner`, as a specification-level value: what
    /// [`Supercow::owned`] and the `From` conversion return.
    pub closed spec fn spec_owned(inner: OWNED) -> Self {
        Supercow { state: SupercowData::Owned(inner) }
    }

    /// What the specification-level owned container stands for.
    pub proof fn lemma_spec_owned(inner: OWNED)
        ensures
            Self::spec_owned(inner).dereferenced() == inner@,
            Self::spec_owned(inner).is_owned(),
    {
    }

    /// Build a container that owns `inner` outright.
    pub fn owned(inner: OWNED) -> (r: Self)
        ensures
            r == Self::spec_owned(inner),
            r.dereferenced() == inner@,
            r.is_owned(),
    {
        Supercow { state: SupercowData::Owned(inner) }
    }

    /// Build a container that borrows its target from `inner` for the
    /// lifetime `'a`.
    pub fn borrowed<T: SafeBorrow<BORROWED> + ?Sized>(inner: &'a T) -> (r: Self)
        ensures
            r.dereferenced() == inner@,
            r.is_borrowed(),
    {
        Supercow { state: SupercowData::Borrowed(inner.borrow_target()) }
    }

    /// Build a container around a shared backing converted from `inner`.
    pub fn shared<T: ConstDeref<Target = BORROWED>>(inner: T) -> (r: Self)
        where SHARED: SharedFrom<T>,
        ensures
            r.dereferenced() == inner.target_view(),
            r.is_shared(),
    {
        Supercow { state: SupercowData::Shared(SHARED::shared_from(inner)) }
    }

    /// Extract an owned value equal to the target, copying it out of a
    /// borrowed or shared backing if the container does not own it.  A
    /// container that owns its target gives that value up unchanged.
    pub fn into_inner(this: Self) -> (r: OWNED)
        where BORROWED: MakeOwned<Owned = OWNED>,
        ensures
            r@ == this.dereferenced(),
            this.is_owned() ==> this == Self::spec_owned(r),
    {
        match this.state {
            SupercowData::Owned(o) => o,
            SupercowData::Borrowed(b) => b.make_owned(),
            SupercowData::Shared(s) => s.const_deref().make_owned(),
        }
    }

    /// Convert any state into a lifetime-unbound container that owns its
    /// target, copying the target if the container does not own it yet.
    pub fn take_ownership(this: Self) -> (r: Supercow<'static, OWNED, BORROWED, SHARED>)
        where BORROWED: MakeOwned<Owned = OWNED> + 'static,
        ensures
            r.dereferenced() == this.dereferenced(),
            r.is_owned(),
            this.is_owned() ==> r == this,
    {
        match this.state {
            SupercowData::Owned(o) => Supercow { state: SupercowData::Owned(o) },
            SupercowData::Borrowed(b) => Supercow { state: SupercowData::Owned(b.make_owned()) },
            SupercowData::Shared(s) => Supercow {
                state: SupercowData::Owned(s.const_deref().make_owned()),
            },
        }
    }

    /// Exclusive mutable access to the target, with copy-on-write
    /// promotion: a container that does not own its target installs an
    /// owned equivalent first, so mutation can never reach a borrowed or
    /// shared backing.  The returned handle starts at the value the
    /// container dereferenced to, and the container thereafter stands for
    /// whatever the caller leaves in the handle.
    pub fn to_mut(&mut self) -> (r: &mut OWNED)
        where BORROWED: MakeOwned<Owned = OWNED>,
        ensures
            (*r).view() == old(self).dereferenced(),
            old(self).is_owned() ==> *old(self) == Self::spec_owned(*r),
            *final(self) == Self::spec_owned(*final(r)),
            final(self).is_owned(),
            final(self).dereferenced() == final(r).view(),
    {
        let promoted = match &self.state {
            SupercowData::Owned(_) => None,
            SupercowData::Borrowed(b) => Some((*b).make_owned()),
            SupercowData::Shared(s) => Some(s.const_deref().make_owned()),
        };
        if let Some(o) = promoted {
            self.state = SupercowData::Owned(o);
        }
        match &mut self.state {
            SupercowData::Owned(o) => o,
            _ => unreached(),
        }
    }

    /// Read-only access to the target, independent of the active state.
    pub fn dereference(&self) -> (r: &BORROWED)
        ensures
            (*r).view() == self.dereferenced(),
    {
        match &self.state {
            SupercowData::Owned(o) => o.borrow_target(),
            SupercowData::Borrowed(b) => *b,
            SupercowData::Shared(s) => s.const_deref(),
        }
    }
}

impl<'a, OWNED, BORROWED, SHARED> core::ops::Deref for Supercow<'a, OWNED, BORROWED, SHARED>
where
    OWNED: SafeBorrow<BORROWED>,
    BORROWED: View + ?Sized + 'a,
    SHARED: ConstDeref<Target = BORROWED>,
{
    type Target = BORROWED;

    /// The `*` operator reads the target, like [`Supercow::dereference`].
    fn deref(&self) -> (r: &BORROWED)
        ensures
            (*r).view() == self.dereferenced(),
    {
        self.dereference()
    }
}

impl<'a, OWNED, BORROWED, SHARED> core::borrow::Borrow<BORROWED>
for Supercow<'a, OWNED, BORROWED, SHARED>
where
    OWNED: SafeBorrow<BORROWED>,
    BORROWED: View + ?Sized + 'a,
    SHARED: ConstDeref<Target = BORROWED>,
{
    /// Borrowing the container reads the target, like
    /// [`Supercow::dereference`].
    fn borrow(&self) -> &BORROWED {
        self.dereference()
    }
}

impl<'a, OWNED, BORROWED, SHARED> AsRef<BORROWED> for Supercow<'a, OWNED, BORROWED, SHARED>
where
    OWNED: SafeBorrow<BORROWED>,
    BORROWED: View + ?Sized + 'a,
    SHARED: ConstDeref<Target = BORROWED>,
{
    /// A reference to the container reads the target, like
    /// [`Supercow::dereference`].
    fn as_ref(&self) -> &BORROWED {
        self.dereference()
    }
}

impl<'a, OWNED, BORROWED, SHARED> Clone for Supercow<'a, OWNED, BORROWED, SHARED>
where
    OWNED: SafeBorrow<BORROWED> + Duplicable,
    BORROWED: View + ?Sized + 'a,
    SHARED: ConstDeref<Target = BORROWED> + DuplicableBacking,
{
    /// Duplicate the container without changing which state is active: an
    /// owned target is duplicated, a borrowed reference is copied as a
    /// reference with the same lifetime, and a shared backing contributes
    /// one more holder.  The duplicate stands for the same target as the
    /// original.
    fn clone(&self) -> (r: Self)
        ensures
            r.dereferenced() == self.dereferenced(),
            r.is_owned() == self.is_owned(),
            r.is_borrowed() == self.is_borrowed(),
            r.is_shared() == self.is_shared(),
            self.is_borrowed() ==> r == *self,
    {
        Supercow {
            state: match &self.state {
                SupercowData::Owned(o) => SupercowData::Owned(o.duplicate()),
                SupercowData::Borrowed(b) => SupercowData::Borrowed(*b),
                SupercowData::Shared(s) => SupercowData::Shared(s.duplicate_backing()),
            },
        }
    }
}

impl<'a, OWNED, BORROWED, SHARED> PartialEq for Supercow<'a, OWNED, BORROWED, SHARED>
where
    OWNED: SafeBorrow<BORROWED>,
    BORROWED: View + TargetEq + ?Sized + 'a,
    SHARED: ConstDeref<Target = BORROWED>,
{
    /// Containers are compared by the targets they stand for, whatever
    /// their states.
    fn eq(&self, other: &Self) -> (r: bool) {
        self.dereference().target_eq(other.dereference())
    }
}

impl<'a, OWNED, BORROWED, SHARED> vstd::std_specs::cmp::PartialEqSpecImpl
for Supercow<'a, OWNED, BORROWED, SHARED>
where
    OWNED: SafeBorrow<BORROWED>,
    BORROWED: View + TargetEq + ?Sized + 'a,
    SHARED: ConstDeref<Target = BORROWED>,
{
    open spec fn obeys_eq_spec() -> bool {
        true
    }

    open spec fn eq_spec(&self, other: &Self) -> bool {
        self.dereferenced() == other.dereferenced()
    }
}

impl<'a, OWNED, BORROWED, SHARED> Eq for Supercow<'a, OWNED, BORROWED, SHARED>
where
    OWNED: SafeBorrow<BORROWED>,
    BORROWED: View + TargetEq + ?Sized + 'a,
    SHARED: ConstDeref<Target = BORROWED>,
{
}

impl<'a, OWNED, BORROWED, SHARED> PartialOrd for Supercow<'a, OWNED, BORROWED, SHARED>
where
    OWNED: SafeBorrow<BORROWED>,
    BORROWED: View + TargetOrd + ?Sized + 'a,
    SHARED: ConstDeref<Target = BORROWED>,
{
    /// Containers are ordered by the targets they stand for, whatever
    /// their states.
    fn partial_cmp(&self, other: &Self) -> (r: Option<core::cmp::Ordering>) {
        Some(self.dereference().target_cmp(other.dereference()))
    }
}

impl<'a, OWNED, BORROWED, SHARED> vstd::std_specs::cmp::PartialOrdSpecImpl
for Supercow<'a, OWNED, BORROWED, SHARED>
where
    OWNED: SafeBorrow<BORROWED>,
    BORROWED: View + TargetOrd + ?Sized + 'a,
    SHARED: ConstDeref<Target = BORROWED>,
{
    open spec fn obeys_partial_cmp_spec() -> bool {
        true
    }

    open spec fn partial_cmp_spec(&self, other: &Self) -> Option<core::cmp::Ordering> {
        Some(BORROWED::cmp_of(self.dereferenced(), other.dereferenced()))
    }
}

/// Relies on the target type's `core::hash::Hash`: feeds the target value's
/// data to the hasher.  No contract is possible over a generic hasher, so
/// nothing is believed of the call.
#[verifier::external_body]
fn hash_target<B: core::hash::Hash + ?Sized, H: core::hash::Hasher>(t: &B, state: &mut H) {
    t.hash(state)
}

impl<'a, OWNED, BORROWED, SHARED> core::hash::Hash for Supercow<'a, OWNED, BORROWED, SHARED>
where
    OWNED: SafeBorrow<BORROWED>,
    BORROWED: View + core::hash::Hash + ?Sized + 'a,
    SHARED: ConstDeref<Target = BORROWED>,
{
    /// The container feeds the hasher exactly what its dereferenced target
    /// would, so equal targets hash alike whatever the containers' states.
    fn hash<H: core::hash::Hasher>(&self, state: &mut H) {
        hash_target(self.dereference(), state)
    }
}

impl<'a, OWNED, BORROWED, SHARED> From<OWNED> for Supercow<'a, OWNED, BORROWED, SHARED>
where
    OWNED: SafeBorrow<BORROWED>,
    BORROWED: View + ?Sized + 'a,
    SHARED: ConstDeref<Target = BORROWED>,
{
    fn from(inner: OWNED) -> (r: Self) {
        Supercow::owned(inner)
    }
}

impl<'a, OWNED, BORROWED, SHARED> vstd::std_specs::convert::FromSpecImpl<OWNED>
for Supercow<'a, OWNED, BORROWED, SHARED>
where
    OWNED: SafeBorrow<BORROWED>,
    BORROWED: View + ?Sized + 'a,
    SHARED: ConstDeref<Target = BORROWED>,
{
    open spec fn obeys_from_spec() -> bool {
        true
    }

    open spec fn from_spec(inner: OWNED) -> Self {
        Supercow::spec_owned(inner)
    }
}

impl<'a, OWNED, BORROWED, SHARED> From<&'a OWNED> for Supercow<'a, OWNED, BORROWED, SHARED>
where
    OWNED: SafeBorrow<BORROWED>,
    BORROWED: View + ?Sized + 'a,
    SHARED: ConstDeref<Target = BORROWED>,
{
    /// A reference converts into a container borrowing its target from it.
    fn from(inner: &'a OWNED) -> (r: Self)
        ensures
            r.dereferenced() == inner@,
            r.is_borrowed(),
    {
        Supercow::borrowed(inner)
    }
}

impl<'a, OWNED, BORROWED, SHARED> vstd::std_specs::convert::FromSpecImpl<&'a OWNED>
for Supercow<'a, OWNED, BORROWED, SHARED>
where
    OWNED: SafeBorrow<BORROWED>,
    BORROWED: View + ?Sized + 'a,
    SHARED: ConstDeref<Target = BORROWED>,
{
    /// The borrowed reference the conversion stores is not a function of
    /// the argument in the logic, so no definite specification value
    /// exists; the conversion's own ensures carry its contract instead.
    open spec fn obeys_from_spec() -> bool {
        false
    }

    open spec fn from_spec(inner: &'a OWNED) -> Self {
        choose|c: Self| c.is_borrowed() && c.dereferenced() == inner@
    }
}

} // verus!
