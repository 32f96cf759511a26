//! Marker types that keep apart the general and the specialised
//! implementations of one trait for one pair of types.

use std::marker::PhantomData;
use vstd::prelude::*;

verus! {

/// A type of which no value is ever made.
enum ImpossibleValue {
    Never,
}

/// Marks the general implementation.
pub struct NotSpecialized {
    _impossible_value: ImpossibleValue,
}

/// Marks the implementation that is specialised for `T`.
pub struct SpecializedFor<T> {
    _impossible_value: ImpossibleValue,
    _type: PhantomData<T>,
}

/// Marks the specialised implementation where it is tied to no type.
pub struct Specialized {
    _inner: SpecializedFor<()>,
}

pub type For<T> = SpecializedFor<T>;

pub type No = NotSpecialized;

pub type Yes<T> = SpecializedFor<T>;

pub type Aye = Specialized;

} // verus!
