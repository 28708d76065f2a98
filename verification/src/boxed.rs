//! The handle form of `Box`.

use vstd::prelude::*;
use vstd::std_specs::cmp::PartialEqSpec;
use vstd::std_specs::cmp::PartialOrdSpec;
use crate::fed::feed_formatter;
use crate::fed::feed_hasher;
use crate::fed::formatted_into;
use crate::fed::hashed_into;

pub use std::boxed::Box as UniqueBox;

verus! {

/// The handle form of a [`UniqueBox`]: an owner of one heap allocation.
///
/// The handle keeps the box it was made from inside and is, while it lives,
/// the one owner of the allocation. [`AliasableBox::into_unique`] gives the
/// box back. It reads, writes, compares, hashes and prints as what it holds.
#[derive(Eq, Ord)]
pub struct AliasableBox<T: ?Sized> {
    owner: Box<T>,
}

impl<T: ?Sized> AliasableBox<T> {
    /// The unique box that this handle converts back into.
    pub closed spec fn unique(self) -> Box<T> {
        self.owner
    }

    /// The handle that owns what `unique` owned.
    pub closed spec fn wrap(unique: Box<T>) -> Self {
        AliasableBox { owner: unique }
    }

    /// The handle over a box converts back into that box, and a handle is
    /// the handle over the box it converts back into.
    pub proof fn wrap_and_unique_are_inverse(unique: Box<T>, aliasable: Self)
        ensures
            Self::wrap(unique).unique() == unique,
            Self::wrap(aliasable.unique()) == aliasable,
    {
    }

    /// Construct an `AliasableBox` from a [`UniqueBox`].
    pub fn from_unique(unique: Box<T>) -> (r: Self)
        ensures
            r == Self::wrap(unique),
            r.unique() == unique,
    {
        AliasableBox { owner: unique }
    }

    /// Consumes the handle and converts it back into a [`UniqueBox`].
    pub fn into_unique(aliasable: Self) -> (r: Box<T>)
        ensures
            r == aliasable.unique(),
    {
        aliasable.owner
    }
}

impl<T: ?Sized> core::ops::Deref for AliasableBox<T> {
    type Target = T;

    fn deref(&self) -> (r: &T)
        ensures
            r == &*self.unique(),
    {
        &*self.owner
    }
}

impl<T: ?Sized> core::ops::DerefMut for AliasableBox<T> {
    fn deref_mut(&mut self) -> (r: &mut T)
        ensures
            &*r == &*old(self).unique(),
            &*final(r) == &*final(self).unique(),
    {
        &mut *self.owner
    }
}

impl<T: ?Sized> core::convert::AsRef<T> for AliasableBox<T> {
    fn as_ref(&self) -> (r: &T)
        ensures
            r == &*self.unique(),
    {
        &*self.owner
    }
}

impl<T: ?Sized> core::convert::AsMut<T> for AliasableBox<T> {
    fn as_mut(&mut self) -> (r: &mut T)
        ensures
            &*r == &*old(self).unique(),
            &*final(r) == &*final(self).unique(),
    {
        &mut *self.owner
    }
}

impl<T: Default> Default for AliasableBox<T> {
    fn default() -> (r: Self)
        ensures
            T::default.ensures((), *r.unique()),
    {
        Self::from_unique(Box::default())
    }
}

impl<T: Clone> Clone for AliasableBox<T> {
    fn clone(&self) -> (r: Self)
        ensures
            cloned::<T>(*self.unique(), *r.unique()),
    {
        Self::from_unique(Box::new((*self.owner).clone()))
    }

    fn clone_from(&mut self, source: &Self)
        ensures
            cloned::<T>(*source.unique(), *final(self).unique()),
    {
        AliasableBox::clone_from(self, source)
    }
}

impl<T: Clone> AliasableBox<T> {
    /// Makes the boxed value a clone of `source`'s, in the allocation that
    /// this handle already owns.
    pub fn clone_from(&mut self, source: &Self)
        ensures
            cloned::<T>(*source.unique(), *final(self).unique()),
    {
        *self.owner = (*source.owner).clone();
    }
}

impl<T: PartialEq + ?Sized> PartialEq for AliasableBox<T> {
    fn eq(&self, other: &Self) -> (r: bool) {
        (*self.owner).eq(&*other.owner)
    }
}

impl<T: PartialEq + ?Sized> vstd::std_specs::cmp::PartialEqSpecImpl for AliasableBox<T> {
    open spec fn obeys_eq_spec() -> bool {
        T::obeys_eq_spec()
    }

    open spec fn eq_spec(&self, other: &Self) -> bool {
        PartialEqSpec::eq_spec(&*self.unique(), &*other.unique())
    }
}

impl<T: PartialOrd + ?Sized> PartialOrd for AliasableBox<T> {
    fn partial_cmp(&self, other: &Self) -> (r: Option<core::cmp::Ordering>) {
        (*self.owner).partial_cmp(&*other.owner)
    }

    fn lt(&self, other: &Self) -> (r: bool) {
        (*self.owner).lt(&*other.owner)
    }

    fn le(&self, other: &Self) -> (r: bool) {
        (*self.owner).le(&*other.owner)
    }

    fn gt(&self, other: &Self) -> (r: bool) {
        (*self.owner).gt(&*other.owner)
    }

    fn ge(&self, other: &Self) -> (r: bool) {
        (*self.owner).ge(&*other.owner)
    }
}

impl<T: PartialOrd + ?Sized> vstd::std_specs::cmp::PartialOrdSpecImpl for AliasableBox<T> {
    open spec fn obeys_partial_cmp_spec() -> bool {
        T::obeys_partial_cmp_spec()
    }

    open spec fn partial_cmp_spec(&self, other: &Self) -> Option<core::cmp::Ordering> {
        PartialOrdSpec::partial_cmp_spec(&*self.unique(), &*other.unique())
    }
}

impl<T: core::hash::Hash + ?Sized> core::hash::Hash for AliasableBox<T> {
    fn hash<H: core::hash::Hasher>(&self, state: &mut H)
        ensures
            (exists|fed: &mut H|
                #![trigger hashed_into::<T, H>(&*self.unique(), fed)]
                {
                    &&& *fed == *old(state)
                    &&& *final(fed) == *final(state)
                    &&& hashed_into::<T, H>(&*self.unique(), fed)
                }),
    {
        feed_hasher(&*self.owner, state);
        proof {
            let fed = choose|fed: &mut H|
                *fed == *old(state) && *final(fed) == *final(state) && hashed_into::<T, H>(
                    &*self.owner,
                    fed,
                );
            assert(hashed_into::<T, H>(&*self.unique(), fed));
        }
    }
}

impl<T: core::fmt::Debug + ?Sized> core::fmt::Debug for AliasableBox<T> {
    fn fmt<'b>(&self, f: &mut core::fmt::Formatter<'b>) -> (r: Result<(), core::fmt::Error>)
        ensures
            (exists|fed: &mut core::fmt::Formatter<'b>|
                #![trigger formatted_into::<T>(&*self.unique(), fed, r)]
                {
                    &&& *fed == *old(f)
                    &&& *final(fed) == *final(f)
                    &&& formatted_into::<T>(&*self.unique(), fed, r)
                }),
    {
        let r = feed_formatter(&*self.owner, f);
        proof {
            let fed = choose|fed: &mut core::fmt::Formatter<'b>|
                *fed == *old(f) && *final(fed) == *final(f) && formatted_into::<T>(
                    &*self.owner,
                    fed,
                    r,
                );
            assert(formatted_into::<T>(&*self.unique(), fed, r));
        }
        r
    }
}

impl<T: ?Sized> core::convert::From<Box<T>> for AliasableBox<T> {
    fn from(unique: Box<T>) -> (r: Self) {
        Self::from_unique(unique)
    }
}

impl<T: ?Sized> vstd::std_specs::convert::FromSpecImpl<Box<T>> for AliasableBox<T> {
    open spec fn obeys_from_spec() -> bool {
        true
    }

    open spec fn from_spec(unique: Box<T>) -> Self {
        Self::wrap(unique)
    }
}

} // verus!
