//! The handle form of `&mut`.

use vstd::prelude::*;
use vstd::std_specs::cmp::PartialEqSpec;
use vstd::std_specs::cmp::PartialOrdSpec;
use crate::fed::feed_formatter;
use crate::fed::feed_hasher;
use crate::fed::formatted_into;
use crate::fed::hashed_into;

verus! {

/// The handle form of an `&mut`: a handle over an exclusively borrowed value.
///
/// The handle owns nothing. It keeps the borrow it was made from inside,
/// stands for it, and gives it back, for the same lifetime, through
/// [`AliasableMut::into_unique`].
#[derive(Eq, Ord)]
pub struct AliasableMut<'a, T: ?Sized> {
    inner: &'a mut T,
}

impl<'a, T: ?Sized> AliasableMut<'a, T> {
    /// The exclusive borrow that this handle stands for.
    pub closed spec fn unique(self) -> &'a mut T {
        self.inner
    }

    /// Construct an `AliasableMut` from an `&mut`.
    pub fn from_unique(ptr: &'a mut T) -> (r: Self)
        ensures
            &*r.unique() == &*old(ptr),
            &*final(r.unique()) == &*final(ptr),
    {
        AliasableMut { inner: ptr }
    }

    /// Consumes the handle and gives back the `&mut` it was made from.
    pub fn into_unique(aliasable: Self) -> (r: &'a mut T)
        ensures
            &*r == &*aliasable.unique(),
            &*final(r) == &*final(aliasable.unique()),
    {
        aliasable.inner
    }
}

impl<'a, T: ?Sized> core::ops::Deref for AliasableMut<'a, T> {
    type Target = T;

    fn deref(&self) -> (r: &T)
        ensures
            r == &*self.unique(),
    {
        &*self.inner
    }
}

impl<'a, T: ?Sized> core::ops::DerefMut for AliasableMut<'a, T> {
    fn deref_mut(&mut self) -> (r: &mut T)
        ensures
            &*r == &*old(self).unique(),
            &*final(r) == &*final(self).unique(),
            &*final(final(self).unique()) == &*final(old(self).unique()),
    {
        &mut *self.inner
    }
}

impl<'a, T: ?Sized> core::convert::AsRef<T> for AliasableMut<'a, T> {
    fn as_ref(&self) -> (r: &T)
        ensures
            r == &*self.unique(),
    {
        &*self.inner
    }
}

impl<'a, T: ?Sized> core::convert::AsMut<T> for AliasableMut<'a, T> {
    fn as_mut(&mut self) -> (r: &mut T)
        ensures
            &*r == &*old(self).unique(),
            &*final(r) == &*final(self).unique(),
            &*final(final(self).unique()) == &*final(old(self).unique()),
    {
        &mut *self.inner
    }
}

impl<'a, T: PartialEq + ?Sized> PartialEq for AliasableMut<'a, T> {
    fn eq(&self, other: &Self) -> (r: bool) {
        (*self.inner).eq(&*other.inner)
    }
}

impl<'a, T: PartialEq + ?Sized> vstd::std_specs::cmp::PartialEqSpecImpl for AliasableMut<'a, T> {
    open spec fn obeys_eq_spec() -> bool {
        T::obeys_eq_spec()
    }

    open spec fn eq_spec(&self, other: &Self) -> bool {
        PartialEqSpec::eq_spec(&*self.unique(), &*other.unique())
    }
}

impl<'a, T: PartialOrd + ?Sized> PartialOrd for AliasableMut<'a, T> {
    fn partial_cmp(&self, other: &Self) -> (r: Option<core::cmp::Ordering>) {
        (*self.inner).partial_cmp(&*other.inner)
    }

    fn lt(&self, other: &Self) -> (r: bool) {
        (*self.inner).lt(&*other.inner)
    }

    fn le(&self, other: &Self) -> (r: bool) {
        (*self.inner).le(&*other.inner)
    }

    fn gt(&self, other: &Self) -> (r: bool) {
        (*self.inner).gt(&*other.inner)
    }

    fn ge(&self, other: &Self) -> (r: bool) {
        (*self.inner).ge(&*other.inner)
    }
}

impl<'a, T: PartialOrd + ?Sized> vstd::std_specs::cmp::PartialOrdSpecImpl for AliasableMut<'a, T> {
    open spec fn obeys_partial_cmp_spec() -> bool {
        T::obeys_partial_cmp_spec()
    }

    open spec fn partial_cmp_spec(&self, other: &Self) -> Option<core::cmp::Ordering> {
        PartialOrdSpec::partial_cmp_spec(&*self.unique(), &*other.unique())
    }
}

impl<'a, T: core::hash::Hash + ?Sized> core::hash::Hash for AliasableMut<'a, T> {
    fn hash<H: core::hash::Hasher>(&self, state: &mut H)
        ensures
            (exists|fed: &mut H|
                #![trigger hashed_into::<T, H>(&*self.unique(), fed)]
                {
                    &&& *fed == *old(state)
                    &&& *final(fed) == *final(state)
                    &&& hashed_into::<T, H>(&*self.unique(), fed)
                }),
    {
        feed_hasher(&*self.inner, state);
        proof {
            let fed = choose|fed: &mut H|
                *fed == *old(state) && *final(fed) == *final(state) && hashed_into::<T, H>(
                    &*self.inner,
                    fed,
                );
            assert(hashed_into::<T, H>(&*self.unique(), fed));
        }
    }
}

impl<'a, T: core::fmt::Debug + ?Sized> core::fmt::Debug for AliasableMut<'a, T> {
    fn fmt<'b>(&self, f: &mut core::fmt::Formatter<'b>) -> (r: Result<(), core::fmt::Error>)
        ensures
            (exists|fed: &mut core::fmt::Formatter<'b>|
                #![trigger formatted_into::<T>(&*self.unique(), fed, r)]
                {
                    &&& *fed == *old(f)
                    &&& *final(fed) == *final(f)
                    &&& formatted_into::<T>(&*self.unique(), fed, r)
                }),
    {
        let r = feed_formatter(&*self.inner, f);
        proof {
            let fed = choose|fed: &mut core::fmt::Formatter<'b>|
                *fed == *old(f) && *final(fed) == *final(f) && formatted_into::<T>(
                    &*self.inner,
                    fed,
                    r,
                );
            assert(formatted_into::<T>(&*self.unique(), fed, r));
        }
        r
    }
}

impl<'a, T: ?Sized> core::convert::From<&'a mut T> for AliasableMut<'a, T> {
    fn from(ptr: &'a mut T) -> (r: Self)
        ensures
            &*r.unique() == &*old(ptr),
            &*final(r.unique()) == &*final(ptr),
    {
        Self::from_unique(ptr)
    }
}

impl<'a, T: ?Sized> vstd::std_specs::convert::FromSpecImpl<&'a mut T> for AliasableMut<'a, T> {
    /// A borrow that is handed on is a new borrow of the same place, so the
    /// handle is stated by what it reads and writes, in `from`'s own clauses.
    open spec fn obeys_from_spec() -> bool {
        false
    }

    open spec fn from_spec(ptr: &'a mut T) -> Self {
        arbitrary()
    }
}

} // verus!
