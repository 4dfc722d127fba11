//! Bridges between the owned and the borrowed form of a target type.
//!
//! A container's owned state holds a value of one type (say `String`) while
//! its dereference hands out another, possibly unsized, type (say `str`).
//! [`SafeBorrow`] derives the borrowed form from the owned value, and
//! [`MakeOwned`] goes the other way, producing an owned equivalent of a
//! borrowed target.  Both directions must preserve the target's abstract
//! view, which is what every container contract is stated over.

use vstd::prelude::*;
use vstd::slice::slice_to_vec;

verus! {

/// An owned value from which the borrowed form of the target can be derived.
///
/// The owned value and the target it borrows as share one abstract view,
/// and the borrow must reveal exactly the owned value's view.
pub trait SafeBorrow<B: View + ?Sized>: View<V = <B as View>::V> {
    /// Derive the borrowed form of the target from this value.
    fn borrow_target(&self) -> (r: &B)
        ensures
            r@ == self@,
    ;
}

impl<T: View + ?Sized> SafeBorrow<T> for T {
    fn borrow_target(&self) -> (r: &T) {
        self
    }
}

impl SafeBorrow<str> for String {
    fn borrow_target(&self) -> (r: &str) {
        self.as_str()
    }
}

impl<T: Copy> SafeBorrow<[T]> for Vec<T> {
    fn borrow_target(&self) -> (r: &[T]) {
        self.as_slice()
    }
}

/// An owned value that can be duplicated without the duplicate differing,
/// in its abstract view, from the original.
///
/// A container needs this of its owned backing to be duplicable as a whole.
pub trait Duplicable: View + Sized {
    fn duplicate(&self) -> (r: Self)
        ensures
            r@ == self@,
    ;
}

impl Duplicable for String {
    fn duplicate(&self) -> (r: Self) {
        self.clone()
    }
}

impl<T: Copy> Duplicable for Vec<T> {
    fn duplicate(&self) -> (r: Self) {
        slice_to_vec(self.as_slice())
    }
}

impl Duplicable for bool {
    fn duplicate(&self) -> (r: Self) {
        *self
    }
}

impl Duplicable for char {
    fn duplicate(&self) -> (r: Self) {
        *self
    }
}

impl Duplicable for u8 {
    fn duplicate(&self) -> (r: Self) {
        *self
    }
}

impl Duplicable for u32 {
    fn duplicate(&self) -> (r: Self) {
        *self
    }
}

impl Duplicable for u64 {
    fn duplicate(&self) -> (r: Self) {
        *self
    }
}

impl Duplicable for usize {
    fn duplicate(&self) -> (r: Self) {
        *self
    }
}

impl Duplicable for i32 {
    fn duplicate(&self) -> (r: Self) {
        *self
    }
}

impl Duplicable for i64 {
    fn duplicate(&self) -> (r: Self) {
        *self
    }
}

/// A target whose equality is decided by its abstract view alone.
///
/// Containers delegate their own equality to this, so two containers
/// compare equal exactly when they stand for equal target values.
pub trait TargetEq: View {
    fn target_eq(&self, other: &Self) -> (r: bool)
        ensures
            r == (self@ == other@),
    ;
}

/// Relies on `str`'s equality operator: two string slices are equal exactly
/// when they hold the same characters.
#[verifier::external_body]
fn str_eq(a: &str, b: &str) -> (r: bool)
    ensures
        r == (a@ == b@),
{
    a == b
}

impl TargetEq for str {
    fn target_eq(&self, other: &Self) -> (r: bool) {
        str_eq(self, other)
    }
}

impl TargetEq for bool {
    fn target_eq(&self, other: &Self) -> (r: bool) {
        *self == *other
    }
}

impl TargetEq for char {
    fn target_eq(&self, other: &Self) -> (r: bool) {
        *self == *other
    }
}

impl TargetEq for u8 {
    fn target_eq(&self, other: &Self) -> (r: bool) {
        *self == *other
    }
}

impl TargetEq for u32 {
    fn target_eq(&self, other: &Self) -> (r: bool) {
        *self == *other
    }
}

impl TargetEq for u64 {
    fn target_eq(&self, other: &Self) -> (r: bool) {
        *self == *other
    }
}

impl TargetEq for usize {
    fn target_eq(&self, other: &Self) -> (r: bool) {
        *self == *other
    }
}

impl TargetEq for i32 {
    fn target_eq(&self, other: &Self) -> (r: bool) {
        *self == *other
    }
}

impl TargetEq for i64 {
    fn target_eq(&self, other: &Self) -> (r: bool) {
        *self == *other
    }
}

/// A target with a total order decided by its abstract view alone.
///
/// Containers delegate their own ordering to this, so two containers order
/// the same way their target values do.
pub trait TargetOrd: TargetEq {
    /// The ordering of two target views.
    spec fn cmp_of(a: Self::V, b: Self::V) -> core::cmp::Ordering;

    /// The order agrees with view equality.
    proof fn lemma_cmp_of_equal(a: Self::V, b: Self::V)
        ensures
            (Self::cmp_of(a, b) == core::cmp::Ordering::Equal) <==> (a == b),
    ;

    fn target_cmp(&self, other: &Self) -> (r: core::cmp::Ordering)
        ensures
            r == Self::cmp_of(self@, other@),
    ;
}

/// Lexicographic order of two character sequences, comparing code points
/// position by position; a proper prefix orders before what it prefixes.
pub open spec fn lexical_cmp_of(a: Seq<char>, b: Seq<char>) -> core::cmp::Ordering
    decreases a.len(),
{
    if a.len() == 0 && b.len() == 0 {
        core::cmp::Ordering::Equal
    } else if a.len() == 0 {
        core::cmp::Ordering::Less
    } else if b.len() == 0 {
        core::cmp::Ordering::Greater
    } else if a[0] != b[0] {
        if (a[0] as u32) < (b[0] as u32) {
            core::cmp::Ordering::Less
        } else {
            core::cmp::Ordering::Greater
        }
    } else {
        lexical_cmp_of(a.skip(1), b.skip(1))
    }
}

/// The lexicographic order returns `Equal` exactly on equal sequences.
pub proof fn lemma_lexical_cmp_of_equal(a: Seq<char>, b: Seq<char>)
    ensures
        (lexical_cmp_of(a, b) == core::cmp::Ordering::Equal) <==> (a == b),
    decreases a.len(),
{
    if a.len() == 0 && b.len() == 0 {
        assert(a =~= b);
    } else if a.len() == 0 || b.len() == 0 {
        assert(a.len() != b.len());
    } else if a[0] != b[0] {
        assert(a != b);
    } else {
        lemma_lexical_cmp_of_equal(a.skip(1), b.skip(1));
        if a == b {
            assert(a.skip(1) =~= b.skip(1));
        }
        if lexical_cmp_of(a, b) == core::cmp::Ordering::Equal {
            assert(a.skip(1) == b.skip(1));
            assert(a =~= b) by {
                assert(a.len() == b.len());
                assert forall|i: int| 0 <= i < a.len() implies a[i] == b[i] by {
                    if i > 0 {
                        assert(a[i] == a.skip(1)[i - 1]);
                        assert(b[i] == b.skip(1)[i - 1]);
                    }
                }
            };
        }
    }
}

/// Relies on `str`'s ordering: string slices compare lexicographically by
/// byte, and for UTF-8 text byte order agrees with the lexicographic order
/// of the character sequences by code point.
#[verifier::external_body]
fn str_cmp(a: &str, b: &str) -> (r: core::cmp::Ordering)
    ensures
        r == lexical_cmp_of(a@, b@),
{
    a.cmp(b)
}

impl TargetOrd for str {
    open spec fn cmp_of(a: Seq<char>, b: Seq<char>) -> core::cmp::Ordering {
        lexical_cmp_of(a, b)
    }

    proof fn lemma_cmp_of_equal(a: Seq<char>, b: Seq<char>) {
        lemma_lexical_cmp_of_equal(a, b);
    }

    fn target_cmp(&self, other: &Self) -> (r: core::cmp::Ordering) {
        str_cmp(self, other)
    }
}

impl TargetOrd for u8 {
    open spec fn cmp_of(a: u8, b: u8) -> core::cmp::Ordering {
        if a < b {
            core::cmp::Ordering::Less
        } else if a == b {
            core::cmp::Ordering::Equal
        } else {
            core::cmp::Ordering::Greater
        }
    }

    proof fn lemma_cmp_of_equal(a: u8, b: u8) {
    }

    fn target_cmp(&self, other: &Self) -> (r: core::cmp::Ordering) {
        if *self < *other {
            core::cmp::Ordering::Less
        } else if *self == *other {
            core::cmp::Ordering::Equal
        } else {
            core::cmp::Ordering::Greater
        }
    }
}

impl TargetOrd for u32 {
    open spec fn cmp_of(a: u32, b: u32) -> core::cmp::Ordering {
        if a < b {
            core::cmp::Ordering::Less
        } else if a == b {
            core::cmp::Ordering::Equal
        } else {
            core::cmp::Ordering::Greater
        }
    }

    proof fn lemma_cmp_of_equal(a: u32, b: u32) {
    }

    fn target_cmp(&self, other: &Self) -> (r: core::cmp::Ordering) {
        if *self < *other {
            core::cmp::Ordering::Less
        } else if *self == *other {
            core::cmp::Ordering::Equal
        } else {
            core::cmp::Ordering::Greater
        }
    }
}

impl TargetOrd for u64 {
    open spec fn cmp_of(a: u64, b: u64) -> core::cmp::Ordering {
        if a < b {
            core::cmp::Ordering::Less
        } else if a == b {
            core::cmp::Ordering::Equal
        } else {
            core::cmp::Ordering::Greater
        }
    }

    proof fn lemma_cmp_of_equal(a: u64, b: u64) {
    }

    fn target_cmp(&self, other: &Self) -> (r: core::cmp::Ordering) {
        if *self < *other {
            core::cmp::Ordering::Less
        } else if *self == *other {
            core::cmp::Ordering::Equal
        } else {
            core::cmp::Ordering::Greater
        }
    }
}

impl TargetOrd for usize {
    open spec fn cmp_of(a: usize, b: usize) -> core::cmp::Ordering {
        if a < b {
            core::cmp::Ordering::Less
        } else if a == b {
            core::cmp::Ordering::Equal
        } else {
            core::cmp::Ordering::Greater
        }
    }

    proof fn lemma_cmp_of_equal(a: usize, b: usize) {
    }

    fn target_cmp(&self, other: &Self) -> (r: core::cmp::Ordering) {
        if *self < *other {
            core::cmp::Ordering::Less
        } else if *self == *other {
            core::cmp::Ordering::Equal
        } else {
            core::cmp::Ordering::Greater
        }
    }
}

impl TargetOrd for i32 {
    open spec fn cmp_of(a: i32, b: i32) -> core::cmp::Ordering {
        if a < b {
            core::cmp::Ordering::Less
        } else if a == b {
            core::cmp::Ordering::Equal
        } else {
            core::cmp::Ordering::Greater
        }
    }

    proof fn lemma_cmp_of_equal(a: i32, b: i32) {
    }

    fn target_cmp(&self, other: &Self) -> (r: core::cmp::Ordering) {
        if *self < *other {
            core::cmp::Ordering::Less
        } else if *self == *other {
            core::cmp::Ordering::Equal
        } else {
            core::cmp::Ordering::Greater
        }
    }
}

impl TargetOrd for i64 {
    open spec fn cmp_of(a: i64, b: i64) -> core::cmp::Ordering {
        if a < b {
            core::cmp::Ordering::Less
        } else if a == b {
            core::cmp::Ordering::Equal
        } else {
            core::cmp::Ordering::Greater
        }
    }

    proof fn lemma_cmp_of_equal(a: i64, b: i64) {
    }

    fn target_cmp(&self, other: &Self) -> (r: core::cmp::Ordering) {
        if *self < *other {
            core::cmp::Ordering::Less
        } else if *self == *other {
            core::cmp::Ordering::Equal
        } else {
            core::cmp::Ordering::Greater
        }
    }
}

/// A borrowed target from which an owned equivalent can be made.
///
/// The owned equivalent must stand for the very target value it was made
/// from: that is the copy a container installs when it promotes itself to
/// the owned state.
pub trait MakeOwned: View {
    type Owned: SafeBorrow<Self>;

    /// Produce an owned equivalent of this target.
    fn make_owned(&self) -> (r: Self::Owned)
        ensures
            r@ == self@,
    ;
}

impl MakeOwned for str {
    type Owned = String;

    fn make_owned(&self) -> (r: String) {
        self.to_owned()
    }
}

impl<T: Copy> MakeOwned for [T] {
    type Owned = Vec<T>;

    fn make_owned(&self) -> (r: Vec<T>) {
        slice_to_vec(self)
    }
}

impl MakeOwned for bool {
    type Owned = bool;

    fn make_owned(&self) -> (r: bool) {
        *self
    }
}

impl MakeOwned for char {
    type Owned = char;

    fn make_owned(&self) -> (r: char) {
        *self
    }
}

impl MakeOwned for u8 {
    type Owned = u8;

    fn make_owned(&self) -> (r: u8) {
        *self
    }
}

impl MakeOwned for u32 {
    type Owned = u32;

    fn make_owned(&self) -> (r: u32) {
        *self
    }
}

impl MakeOwned for u64 {
    type Owned = u64;

    fn make_owned(&self) -> (r: u64) {
        *self
    }
}

impl MakeOwned for usize {
    type Owned = usize;

    fn make_owned(&self) -> (r: usize) {
        *self
    }
}

impl MakeOwned for i32 {
    type Owned = i32;

    fn make_owned(&self) -> (r: i32) {
        *self
    }
}

impl MakeOwned for i64 {
    type Owned = i64;

    fn make_owned(&self) -> (r: i64) {
        *self
    }
}

} // verus!
