//! A polymorphic reference container.
//!
//! A [`Supercow`] holds exactly one of three backings for a target value: an
//! owned value, a borrowed reference with a bounded lifetime, or a shared
//! (reference-counted or otherwise indirect) wrapper.  All three present one
//! uniform read-only dereference, and mutable access promotes the container
//! to an owned copy first, so that mutation never reaches a backing that
//! other containers may also use.

pub mod capability;
pub mod container;
pub mod laws;
pub mod target;

pub use capability::ConstDeref;
pub use capability::DuplicableBacking;
pub use capability::SharedFrom;
pub use container::Supercow;
pub use target::Duplicable;
pub use target::MakeOwned;
pub use target::SafeBorrow;
pub use target::TargetEq;
pub use target::TargetOrd;
