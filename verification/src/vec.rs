//! The handle form of `Vec`.

use vstd::prelude::*;
use vstd::std_specs::cmp::PartialEqSpec;
use vstd::std_specs::cmp::PartialOrdSpec;
use crate::lexical::lexicographic;
use crate::lexical::lexicographic_order;
use crate::lexical::pointwise_eq;
use crate::std_specs::buffer_address;
use crate::fed::feed_formatter;
use crate::fed::feed_hasher;
use crate::fed::formatted_into;
use crate::fed::hashed_into;
use crate::std_specs::vec_as_mut;
use crate::std_specs::vec_capacity;
use crate::std_specs::vec_clone;

pub use std::vec::Vec as UniqueVec;

verus! {

/// The handle form of a [`UniqueVec`]: an owner of a growable buffer.
///
/// The handle keeps the vector it was made from inside. Beside it, it keeps
/// the raw parts that it read from that vector: where the buffer starts, how
/// many elements it holds and how many it has room for. They stay as they
/// are until the handle is given a new buffer.
pub struct AliasableVec<T> {
    owner: Vec<T>,
    addr: usize,
    len: usize,
    cap: usize,
}

impl<T> View for AliasableVec<T> {
    type V = Seq<T>;

    closed spec fn view(&self) -> Seq<T> {
        self.owner@
    }
}

impl<T> AliasableVec<T> {
    /// The recorded length is that of the buffer, it is within the recorded
    /// capacity, the recorded address is not null, and the recorded address
    /// and capacity are ones that the vector gives.
    #[verifier::type_invariant]
    spec fn well_formed(self) -> bool {
        &&& self.len == self.owner@.len()
        &&& self.len <= self.cap
        &&& self.addr != 0
        &&& call_ensures(buffer_address::<T>, (&self.owner,), self.addr)
        &&& call_ensures(vec_capacity::<T>, (&self.owner,), self.cap)
    }

    /// The unique vector that this handle converts back into.
    pub closed spec fn unique(self) -> Vec<T> {
        self.owner
    }

    /// What a handle holds is what its unique vector holds.
    pub proof fn view_is_that_of_unique(self)
        ensures
            self@ == self.unique()@,
    {
    }

    /// `addr` is an address that `v` gave for its buffer.
    pub closed spec fn address_of(v: Vec<T>, addr: usize) -> bool {
        call_ensures(buffer_address::<T>, (&v,), addr)
    }

    /// `cap` is a capacity that `v` gave.
    pub closed spec fn capacity_of(v: Vec<T>, cap: usize) -> bool {
        call_ensures(vec_capacity::<T>, (&v,), cap)
    }

    /// The recorded address and capacity are ones that the handle's vector
    /// gives. This holds of every handle at all times; the functions that
    /// make or change one say so.
    pub open spec fn parts_recorded(&self) -> bool {
        &&& Self::address_of(self.unique(), self.spec_addr())
        &&& Self::capacity_of(self.unique(), self.spec_capacity())
    }

    /// The recorded capacity.
    pub closed spec fn spec_capacity(&self) -> usize {
        self.cap
    }

    /// The recorded address of the buffer.
    pub closed spec fn spec_addr(&self) -> usize {
        self.addr
    }

    /// Returns the number of elements in the buffer.
    pub fn len(&self) -> (n: usize)
        ensures
            n == self@.len(),
    {
        proof {
            use_type_invariant(self);
        }
        self.len
    }

    /// Returns the number of elements the buffer has room for.
    pub fn capacity(&self) -> (c: usize)
        ensures
            c == self.spec_capacity(),
            c >= self@.len(),
            Self::capacity_of(self.unique(), c),
    {
        proof {
            use_type_invariant(self);
        }
        self.cap
    }

    /// Returns the address of the buffer.
    pub fn as_ptr(&self) -> (addr: usize)
        ensures
            addr == self.spec_addr(),
            addr != 0,
            Self::address_of(self.unique(), addr),
    {
        proof {
            use_type_invariant(self);
        }
        self.addr
    }

    /// Returns the address of the buffer, from an exclusive borrow of the
    /// handle. The handle is left as it was.
    pub fn as_mut_ptr(&mut self) -> (addr: usize)
        ensures
            addr == old(self).spec_addr(),
            addr != 0,
            Self::address_of(old(self).unique(), addr),
            *final(self) == *old(self),
    {
        proof {
            use_type_invariant(&*self);
        }
        self.addr
    }

    /// Construct an `AliasableVec` from a [`UniqueVec`]: the vector's raw
    /// parts are read and recorded, and the handle takes the buffer over.
    pub fn from_unique(unique: Vec<T>) -> (r: Self)
        ensures
            r.unique() == unique,
            r@ == unique@,
            Self::address_of(unique, r.spec_addr()),
            Self::capacity_of(unique, r.spec_capacity()),
            r@.len() <= r.spec_capacity(),
            r.spec_addr() != 0,
    {
        let addr = buffer_address(&unique);
        let len = unique.len();
        let cap = vec_capacity(&unique);
        AliasableVec { owner: unique, addr, len, cap }
    }

    /// Consumes the handle and converts it back into a [`UniqueVec`].
    pub fn into_unique(aliasable: Self) -> (r: Vec<T>)
        ensures
            r == aliasable.unique(),
            r@ == aliasable@,
    {
        aliasable.owner
    }

    /// The elements, for reading.
    pub fn as_slice(&self) -> (r: &[T])
        ensures
            r@ == self@,
    {
        self.owner.as_slice()
    }

    /// The elements, for writing. Neither their number nor the recorded
    /// address and capacity can change through the slice.
    pub fn as_mut_slice(&mut self) -> (r: &mut [T])
        ensures
            r@ == old(self)@,
            final(r)@ == final(self)@,
            final(self)@.len() == old(self)@.len(),
            final(self).spec_addr() == old(self).spec_addr(),
            final(self).spec_capacity() == old(self).spec_capacity(),
            final(self).parts_recorded(),
            final(self)@.len() <= final(self).spec_capacity(),
        no_unwind
    {
        proof {
            use_type_invariant(&*self);
        }
        vec_as_mut(&mut self.owner)
    }
}

impl<T> core::ops::Deref for AliasableVec<T> {
    type Target = [T];

    fn deref(&self) -> (r: &[T])
        ensures
            r@ == self@,
    {
        self.as_slice()
    }
}

impl<T> core::ops::DerefMut for AliasableVec<T> {
    fn deref_mut(&mut self) -> (r: &mut [T])
        ensures
            r@ == old(self)@,
            final(r)@ == final(self)@,
            final(self)@.len() == old(self)@.len(),
            final(self).spec_addr() == old(self).spec_addr(),
            final(self).spec_capacity() == old(self).spec_capacity(),
            final(self).parts_recorded(),
            final(self)@.len() <= final(self).spec_capacity(),
    {
        self.as_mut_slice()
    }
}

impl<T> core::convert::AsRef<[T]> for AliasableVec<T> {
    fn as_ref(&self) -> (r: &[T])
        ensures
            r@ == self@,
    {
        self.as_slice()
    }
}

impl<T> core::convert::AsMut<[T]> for AliasableVec<T> {
    fn as_mut(&mut self) -> (r: &mut [T])
        ensures
            r@ == old(self)@,
            final(r)@ == final(self)@,
            final(self)@.len() == old(self)@.len(),
            final(self).spec_addr() == old(self).spec_addr(),
            final(self).spec_capacity() == old(self).spec_capacity(),
            final(self).parts_recorded(),
            final(self)@.len() <= final(self).spec_capacity(),
    {
        self.as_mut_slice()
    }
}

impl<T> Default for AliasableVec<T> {
    fn default() -> (r: Self)
        ensures
            r@ == Seq::<T>::empty(),
            (exists|unique: Vec<T>|
                #![trigger call_ensures(Self::from_unique, (unique,), r)]
                call_ensures(Vec::<T>::new, (), unique) && call_ensures(
                    Self::from_unique,
                    (unique,),
                    r,
                )),
    {
        Self::from_unique(Vec::new())
    }
}

impl<T: Clone> Clone for AliasableVec<T> {
    fn clone(&self) -> (r: Self)
        ensures
            r@.len() == self@.len(),
            forall|i: int| 0 <= i < self@.len() ==> cloned::<T>(self@[i], #[trigger] r@[i]),
            r@.len() <= r.spec_capacity(),
            r.parts_recorded(),
            self@.len() > 0 && vstd::layout::size_of::<T>() > 0 ==> r.spec_addr()
                != self.spec_addr(),
    {
        proof {
            use_type_invariant(self);
        }
        Self::from_unique(vec_clone(&self.owner))
    }

    fn clone_from(&mut self, source: &Self)
        ensures
            final(self)@.len() == source@.len(),
            forall|i: int|
                0 <= i < source@.len() ==> cloned::<T>(source@[i], #[trigger] final(self)@[i]),
            final(self)@.len() <= final(self).spec_capacity(),
            final(self).parts_recorded(),
    {
        AliasableVec::clone_from(self, source)
    }
}

impl<T: Clone> AliasableVec<T> {
    /// Makes the buffer hold clones of `source`'s elements, in the room that
    /// this handle already has where that is enough.
    ///
    /// The buffer is taken out of the handle as a unique vector, cut down to
    /// `source`'s length, overwritten element by element, as far as it then
    /// reaches, with clones of `source`'s elements, and extended by clones of
    /// the rest. Then the handle takes it back and records its raw parts
    /// anew.
    pub fn clone_from(&mut self, source: &Self)
        ensures
            final(self)@.len() == source@.len(),
            forall|i: int|
                0 <= i < source@.len() ==> cloned::<T>(source@[i], #[trigger] final(self)@[i]),
            final(self)@.len() <= final(self).spec_capacity(),
            final(self).parts_recorded(),
    {
        let mut taken = Self::default();
        core::mem::swap(self, &mut taken);
        let mut unique = Self::into_unique(taken);

        unique.truncate(source.len());

        let (init, tail) = source.as_slice().split_at(unique.len());

        let mut i: usize = 0;
        while i < init.len()
            invariant
                i <= init@.len(),
                unique@.len() == init@.len(),
                forall|j: int| 0 <= j < i ==> cloned::<T>(init@[j], #[trigger] unique@[j]),
            decreases init@.len() - i,
        {
            unique[i] = init[i].clone();
            i += 1;
        }
        unique.extend_from_slice(tail);

        *self = Self::from_unique(unique);
        proof {
            use_type_invariant(&*self);
        }
    }
}

impl<T> core::convert::From<Vec<T>> for AliasableVec<T> {
    fn from(unique: Vec<T>) -> (r: Self)
        ensures
            r.unique() == unique,
            r@ == unique@,
            Self::address_of(unique, r.spec_addr()),
            Self::capacity_of(unique, r.spec_capacity()),
            r@.len() <= r.spec_capacity(),
            r.spec_addr() != 0,
    {
        Self::from_unique(unique)
    }
}

impl<T> vstd::std_specs::convert::FromSpecImpl<Vec<T>> for AliasableVec<T> {
    /// The address and the capacity that the handle records are read from
    /// the allocator's work, so the handle is stated by the vector it owns,
    /// in `from`'s own clauses.
    open spec fn obeys_from_spec() -> bool {
        false
    }

    open spec fn from_spec(unique: Vec<T>) -> Self {
        arbitrary()
    }
}

impl<T> core::convert::From<AliasableVec<T>> for Vec<T> {
    fn from(aliasable: AliasableVec<T>) -> (r: Self) {
        AliasableVec::into_unique(aliasable)
    }
}

impl<T> vstd::std_specs::convert::FromSpecImpl<AliasableVec<T>> for Vec<T> {
    open spec fn obeys_from_spec() -> bool {
        true
    }

    open spec fn from_spec(aliasable: AliasableVec<T>) -> Self {
        aliasable.unique()
    }
}

impl<T: PartialEq<U>, U> PartialEq<AliasableVec<U>> for AliasableVec<T> {
    fn eq(&self, other: &AliasableVec<U>) -> (r: bool) {
        self.owner == other.owner
    }
}

impl<T: PartialEq<U>, U> vstd::std_specs::cmp::PartialEqSpecImpl<AliasableVec<U>> for AliasableVec<T> {
    open spec fn obeys_eq_spec() -> bool {
        T::obeys_eq_spec()
    }

    open spec fn eq_spec(&self, other: &AliasableVec<U>) -> bool {
        pointwise_eq(self@, other@)
    }
}

impl<T: Eq> Eq for AliasableVec<T> {}

impl<T: core::hash::Hash> core::hash::Hash for AliasableVec<T> {
    fn hash<H: core::hash::Hasher>(&self, state: &mut H)
        ensures
            (exists|items: &[T], fed: &mut H|
                #![trigger hashed_into::<[T], H>(items, fed)]
                {
                    &&& items@ == self@
                    &&& *fed == *old(state)
                    &&& *final(fed) == *final(state)
                    &&& hashed_into::<[T], H>(items, fed)
                }),
    {
        let items = self.as_slice();
        feed_hasher(items, state);
        proof {
            let fed = choose|fed: &mut H|
                *fed == *old(state) && *final(fed) == *final(state) && hashed_into::<[T], H>(
                    items,
                    fed,
                );
            assert(hashed_into::<[T], H>(items, fed));
        }
    }
}

impl<T: core::fmt::Debug> core::fmt::Debug for AliasableVec<T> {
    fn fmt<'b>(&self, f: &mut core::fmt::Formatter<'b>) -> (r: Result<(), core::fmt::Error>)
        ensures
            (exists|items: &[T], fed: &mut core::fmt::Formatter<'b>|
                #![trigger formatted_into::<[T]>(items, fed, r)]
                {
                    &&& items@ == self@
                    &&& *fed == *old(f)
                    &&& *final(fed) == *final(f)
                    &&& formatted_into::<[T]>(items, fed, r)
                }),
    {
        let items = self.as_slice();
        let r = feed_formatter(items, f);
        proof {
            let fed = choose|fed: &mut core::fmt::Formatter<'b>|
                *fed == *old(f) && *final(fed) == *final(f) && formatted_into::<[T]>(
                    items,
                    fed,
                    r,
                );
            assert(formatted_into::<[T]>(items, fed, r));
        }
        r
    }
}

impl<T: PartialOrd> PartialOrd for AliasableVec<T> {
    fn partial_cmp(&self, other: &Self) -> (r: Option<core::cmp::Ordering>) {
        lexicographic_order(self.as_slice(), other.as_slice())
    }
}

impl<T: PartialOrd> vstd::std_specs::cmp::PartialOrdSpecImpl for AliasableVec<T> {
    open spec fn obeys_partial_cmp_spec() -> bool {
        T::obeys_partial_cmp_spec()
    }

    open spec fn partial_cmp_spec(&self, other: &Self) -> Option<core::cmp::Ordering> {
        lexicographic(self@, other@)
    }
}

impl<T: Ord> Ord for AliasableVec<T> {
    /// `Ord::cmp` of the two vectors: where the elements' `cmp` does what its
    /// spec says and agrees with their partial order, as `Ord` asks of every
    /// impl, the vectors compare lexicographically.
    #[verifier::external_body]
    fn cmp(&self, other: &Self) -> (r: core::cmp::Ordering)
        ensures
            vstd::laws_cmp::obeys_cmp_ord::<T>() ==> Some(r) == lexicographic(self@, other@),
    {
        self.owner.cmp(&other.owner)
    }
}

} // verus!
