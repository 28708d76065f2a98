//! Pinned handles.
//!
//! A pinned unique owner becomes a pinned handle, and a pinned handle a pinned
//! unique owner, by taking the pointer out of the pin, converting it, and
//! pinning what comes out. The conversion moves the pointer and leaves the
//! allocation where it is.
//!
//! The conversions here are for pointers to values that may be moved
//! (`Unpin`): they take a pin apart with `Pin::into_inner` and make one with
//! `Pin::new`. For a value that must stay where it is, a pin can be taken
//! apart and made by the unchecked forms alone, which safe code cannot call.
//!
//! To the verifier a pin is opaque. What is known of one is which pointer it
//! holds: the pointer that `Pin::into_inner` gives on it. The contracts here
//! say which pointer the pin that comes back holds.

use core::ops::Deref;
use core::pin::Pin;
use vstd::prelude::*;
use crate::boxed::AliasableBox;
use crate::mut_ref::AliasableMut;
use crate::std_specs::pin_into_inner;
use crate::std_specs::pin_into_inner_slice;
use crate::std_specs::pin_into_inner_str;
use crate::std_specs::pin_new;
use crate::std_specs::pin_new_slice;
use crate::std_specs::pin_new_str;
use crate::string::AliasableString;
use crate::vec::AliasableVec;

verus! {

/// `pin` holds `pointer`: taking the pointer out of the pin may give it.
/// For a pointer to a value that may be moved.
pub closed spec fn holds<P: Deref<Target = X>, X: Unpin + ?Sized>(pin: Pin<P>, pointer: P) -> bool {
    call_ensures(pin_into_inner::<P, X>, (pin,), pointer)
}

/// `pin` holds `pointer` and no other.
pub open spec fn holds_only<P: Deref<Target = X>, X: Unpin + ?Sized>(
    pin: Pin<P>,
    pointer: P,
) -> bool {
    &&& holds(pin, pointer)
    &&& forall|other: P| #[trigger] holds(pin, other) ==> other == pointer
}

/// `pin` holds `pointer`, for a pointer to a slice of values that may be
/// moved.
pub closed spec fn holds_slice<P: Deref<Target = [X]>, X: Unpin>(pin: Pin<P>, pointer: P) -> bool {
    call_ensures(pin_into_inner_slice::<P, X>, (pin,), pointer)
}

/// `pin` holds `pointer` and no other, for a pointer to a slice.
pub open spec fn holds_only_slice<P: Deref<Target = [X]>, X: Unpin>(
    pin: Pin<P>,
    pointer: P,
) -> bool {
    &&& holds_slice(pin, pointer)
    &&& forall|other: P| #[trigger] holds_slice(pin, other) ==> other == pointer
}

/// `pin` holds `pointer`, for a pointer to text.
pub closed spec fn holds_str<P: Deref<Target = str>>(pin: Pin<P>, pointer: P) -> bool {
    call_ensures(pin_into_inner_str::<P>, (pin,), pointer)
}

/// `pin` holds `pointer` and no other, for a pointer to text.
pub open spec fn holds_only_str<P: Deref<Target = str>>(pin: Pin<P>, pointer: P) -> bool {
    &&& holds_str(pin, pointer)
    &&& forall|other: P| #[trigger] holds_str(pin, other) ==> other == pointer
}

impl<'a, T: Unpin + ?Sized> AliasableMut<'a, T> {
    /// Convert a pinned `AliasableMut` to a pinned `&mut`: the pin that comes
    /// back holds one borrow, the borrow that a handle in the given pin
    /// stands for.
    pub fn into_unique_pin(pin: Pin<Self>) -> (r: Pin<&'a mut T>)
        ensures
            (exists|aliasable: Self, unique: &'a mut T|
                #![trigger holds(pin, aliasable), holds(r, unique)]
                {
                    &&& holds(pin, aliasable)
                    &&& &*unique == &*aliasable.unique()
                    &&& &*final(unique) == &*final(aliasable.unique())
                    &&& holds_only(r, unique)
                }),
    {
        let aliasable = pin_into_inner(pin);
        let ghost taken = aliasable;
        let unique = Self::into_unique(aliasable);
        let ghost given = unique;
        let r = pin_new(unique);
        assert(holds(pin, taken));
        assert(&*given == &*taken.unique());
        assert(&*final(given) == &*final(taken.unique()));
        assert(holds_only(r, given));
        r
    }

    /// Convert a pinned `&mut` to a pinned `AliasableMut`: the pin that comes
    /// back holds one handle, which stands for a borrow that the given pin
    /// held.
    pub fn from_unique_pin(pin: Pin<&'a mut T>) -> (r: Pin<Self>)
        ensures
            (exists|unique: &'a mut T, aliasable: Self|
                #![trigger holds(pin, unique), holds(r, aliasable)]
                {
                    &&& holds(pin, unique)
                    &&& &*aliasable.unique() == &*unique
                    &&& &*final(aliasable.unique()) == &*final(unique)
                    &&& holds_only(r, aliasable)
                }),
    {
        let unique = pin_into_inner(pin);
        let ghost taken = unique;
        let aliasable = Self::from_unique(unique);
        let ghost given = aliasable;
        let r = pin_new(aliasable);
        assert(holds(pin, taken));
        assert(&*given.unique() == &*taken);
        assert(&*final(given.unique()) == &*final(taken));
        assert(holds_only(r, given));
        r
    }
}

impl<T: Unpin + ?Sized> AliasableBox<T> {
    /// Convert a pinned `AliasableBox` to a pinned `Box`: the pin that comes
    /// back holds one box, the box that a handle in the given pin converts
    /// back into.
    pub fn into_unique_pin(pin: Pin<Self>) -> (r: Pin<Box<T>>)
        ensures
            (exists|aliasable: Self|
                #![trigger holds(pin, aliasable)]
                holds(pin, aliasable) && holds_only(r, aliasable.unique())),
    {
        let aliasable = pin_into_inner(pin);
        let ghost taken = aliasable;
        let r = pin_new(Self::into_unique(aliasable));
        assert(holds(pin, taken) && holds_only(r, taken.unique()));
        r
    }

    /// Convert a pinned `Box` to a pinned `AliasableBox`: the pin that comes
    /// back holds one handle, the handle over a box that the given pin held.
    pub fn from_unique_pin(pin: Pin<Box<T>>) -> (r: Pin<Self>)
        ensures
            (exists|unique: Box<T>|
                #![trigger holds(pin, unique)]
                holds(pin, unique) && holds_only(r, Self::wrap(unique))),
    {
        let unique = pin_into_inner(pin);
        let ghost taken = unique;
        let r = pin_new(Self::from_unique(unique));
        assert(holds(pin, taken) && holds_only(r, Self::wrap(taken)));
        r
    }
}

impl<T: Unpin> AliasableVec<T> {
    /// Convert a pinned `AliasableVec` to a pinned `Vec`: the pin that comes
    /// back holds one vector, the vector that a handle in the given pin
    /// converts back into.
    pub fn into_unique_pin(pin: Pin<Self>) -> (r: Pin<Vec<T>>)
        ensures
            (exists|aliasable: Self|
                #![trigger holds_slice(pin, aliasable)]
                holds_slice(pin, aliasable) && holds_only_slice(r, aliasable.unique())),
    {
        let aliasable = pin_into_inner_slice(pin);
        let ghost taken = aliasable;
        let r = pin_new_slice(Self::into_unique(aliasable));
        assert(holds_slice(pin, taken) && holds_only_slice(r, taken.unique()));
        r
    }

    /// Convert a pinned `Vec` to a pinned `AliasableVec`: the pin that comes
    /// back holds one handle, which converts back into a vector that the
    /// given pin held.
    pub fn from_unique_pin(pin: Pin<Vec<T>>) -> (r: Pin<Self>)
        ensures
            (exists|unique: Vec<T>, aliasable: Self|
                #![trigger holds_slice(pin, unique), holds_slice(r, aliasable)]
                {
                    &&& holds_slice(pin, unique)
                    &&& aliasable.unique() == unique
                    &&& aliasable.parts_recorded()
                    &&& holds_only_slice(r, aliasable)
                }),
    {
        let unique = pin_into_inner_slice(pin);
        let ghost taken = unique;
        let aliasable = Self::from_unique(unique);
        let ghost given = aliasable;
        let r = pin_new_slice(aliasable);
        assert(holds_slice(pin, taken) && given.unique() == taken && given.parts_recorded()
            && holds_only_slice(r, given));
        r
    }
}

impl AliasableString {
    /// Convert a pinned `AliasableString` to a pinned `String`: the pin that
    /// comes back holds one string, the string that a handle in the given
    /// pin converts back into, made in that handle's buffer.
    pub fn into_unique_pin(pin: Pin<Self>) -> (r: Pin<String>)
        ensures
            (exists|aliasable: Self, unique: String|
                #![trigger holds_str(pin, aliasable), holds_str(r, unique)]
                {
                    &&& holds_str(pin, aliasable)
                    &&& unique@ == aliasable@
                    &&& Self::text_of(aliasable.buffer().unique(), unique)
                    &&& holds_only_str(r, unique)
                }),
    {
        let aliasable = pin_into_inner_str(pin);
        let ghost taken = aliasable;
        let unique = Self::into_unique(aliasable);
        let ghost given = unique;
        let r = pin_new_str(unique);
        assert(holds_str(pin, taken) && given@ == taken@ && Self::text_of(
            taken.buffer().unique(),
            given,
        ) && holds_only_str(r, given));
        r
    }

    /// Convert a pinned `String` to a pinned `AliasableString`: the pin that
    /// comes back holds one handle, over the buffer of a string that the
    /// given pin held.
    pub fn from_unique_pin(pin: Pin<String>) -> (r: Pin<Self>)
        ensures
            (exists|unique: String, aliasable: Self|
                #![trigger holds_str(pin, unique), holds_str(r, aliasable)]
                {
                    &&& holds_str(pin, unique)
                    &&& aliasable@ == unique@
                    &&& Self::bytes_of(unique, aliasable.buffer().unique())
                    &&& aliasable.buffer().parts_recorded()
                    &&& holds_only_str(r, aliasable)
                }),
    {
        let unique = pin_into_inner_str(pin);
        let ghost taken = unique;
        let aliasable = Self::from_unique(unique);
        let ghost given = aliasable;
        let r = pin_new_str(aliasable);
        assert(holds_str(pin, taken) && given@ == taken@ && Self::bytes_of(
            taken,
            given.buffer().unique(),
        ) && given.buffer().parts_recorded() && holds_only_str(r, given));
        r
    }
}

} // verus!
