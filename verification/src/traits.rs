//! The interfaces that the emitted implementations target.
//!
//! `TryAsRef`, `TryAsMut` and `TypedContainer` are for enums to implement,
//! by hand or with the emitted source. What an implementation returns is up
//! to it, so their methods promise nothing here.

use std::any::TypeId;
use vstd::prelude::*;
use vstd::std_specs::convert::TryIntoSpec;

verus! {

/// `std::any::TypeId`, the identifier of a type.
#[verifier::external_type_specification]
#[verifier::external_body]
pub struct ExTypeId(TypeId);

/// `TypeId::of::<T>()` gives the identifier of `T`. The identifier depends on
/// the type alone, and no contract here can speak of a type: nothing is
/// stated of it.
pub assume_specification<T: ?Sized + 'static>[ TypeId::of::<T> ]() -> (id: TypeId)
;

/// Compares two identifiers with `==` of `TypeId`, which holds exactly if
/// the two are the same identifier.
#[verifier::external_body]
fn same_type_id(a: &TypeId, b: &TypeId) -> (same: bool)
    ensures
        same == (*a == *b),
{
    a == b
}

/// A version of `AsRef<T>` that can fail.
pub trait TryAsRef<T> {
    /// A reference to the value of type `T` that `self` holds, or `None` if it
    /// holds a value of another type.
    fn try_as_ref(&self) -> Option<&T>;
}

/// A version of `AsMut<T>` that can fail.
pub trait TryAsMut<T> {
    /// A mutable reference to the value of type `T` that `self` holds, or
    /// `None` if it holds a value of another type.
    fn try_as_mut(&mut self) -> Option<&mut T>;
}

/// A container that holds one value, of one of several types.
pub trait TypedContainer {
    /// Whether the value held is of type `T`: whether the identifier that
    /// `type_id` gives for `self` is the one that `TypeId::of::<T>()` gives.
    fn holds<T: 'static>(&self) -> (yes: bool)
        ensures
            exists|held: TypeId, wanted: TypeId|
                {
                    &&& call_ensures(Self::type_id, (self,), held)
                    &&& call_ensures(TypeId::of::<T>, (), wanted)
                    &&& yes == (held == wanted)
                },
    {
        let held = self.type_id();
        let wanted = TypeId::of::<T>();
        same_type_id(&held, &wanted)
    }

    /// The identifier of the type of the value held.
    fn type_id(&self) -> TypeId;
}

/// A conversion for a caller who knows by other means that it succeeds.
pub trait UnwrapInto<T>: TryInto<T> {
    /// The value that `try_into` gives. Where `try_into` fails there is no
    /// value to give: a caller that is not verified stops there.
    fn unwrap_into(self) -> (value: T)
        requires
            Self::obeys_try_into_spec(),
            self.try_into_spec() is Ok,
        ensures
            self.try_into_spec() == Ok::<T, <Self as TryInto<T>>::Error>(value),
    ;
}

impl<C: TryInto<T>, T> UnwrapInto<T> for C {
    fn unwrap_into(self) -> (value: T) {
        match self.try_into() {
            Ok(value) => value,
            Err(_) => vstd::pervasive::unreached(),
        }
    }
}

} // verus!
