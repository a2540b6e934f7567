//! Supertraits that keep the role and state marker traits closed to this crate.
use vstd::prelude::*;

verus! {

pub trait SealedRole {}

pub trait SealedPageState {}

pub trait SealedCapType {}

} // verus!
