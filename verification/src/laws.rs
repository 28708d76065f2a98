//! Laws that hold of the handles, whatever they own.
//!
//! Each law speaks of what the conversions, the accessors and the comparisons
//! return: a premise `call_ensures(f, args, r)` reads "`r` is what `f` gave
//! on `args`".

use core::ops::Deref;
use core::pin::Pin;
use vstd::prelude::*;
use vstd::std_specs::cmp::PartialEqSpec;
use vstd::std_specs::cmp::PartialOrdSpec;
use vstd::utf8::encode_utf8;
use crate::boxed::AliasableBox;
use crate::lexical::lexicographic;
use crate::lexical::pointwise_eq;
use crate::mut_ref::AliasableMut;
use crate::pin::holds;
use crate::pin::holds_only;
use crate::pin::holds_only_slice;
use crate::pin::holds_only_str;
use crate::pin::holds_slice;
use crate::pin::holds_str;
use crate::string::AliasableString;
use crate::vec::AliasableVec;

verus! {

/// A borrow that is made a handle and converted back is a borrow of the same
/// place: it reads what the first read, and what is written through it is
/// what the first would have left.
pub proof fn mut_round_trip<'a, T: ?Sized>(
    unique: &'a mut T,
    aliasable: AliasableMut<'a, T>,
    back: &'a mut T,
)
    requires
        call_ensures(AliasableMut::<'a, T>::from_unique, (unique,), aliasable),
        call_ensures(AliasableMut::<'a, T>::into_unique, (aliasable,), back),
    ensures
        &*old(back) == &*old(unique),
        &*final(back) == &*final(unique),
{
}

/// A box that is made a handle and converted back is the box it was.
pub proof fn box_round_trip<T: ?Sized>(unique: Box<T>, aliasable: AliasableBox<T>, back: Box<T>)
    requires
        call_ensures(AliasableBox::<T>::from_unique, (unique,), aliasable),
        call_ensures(AliasableBox::<T>::into_unique, (aliasable,), back),
    ensures
        back == unique,
{
}

/// A vector that is made a handle and converted back is the vector it was:
/// the same buffer, with the length and the elements it had.
pub proof fn vec_round_trip<T>(unique: Vec<T>, aliasable: AliasableVec<T>, back: Vec<T>)
    requires
        call_ensures(AliasableVec::<T>::from_unique, (unique,), aliasable),
        call_ensures(AliasableVec::<T>::into_unique, (aliasable,), back),
    ensures
        back == unique,
        back@ == unique@,
        back.len() == unique.len(),
{
}

/// A string that is made a handle and converted back holds the text it
/// held, in the buffer it had: the string that comes back is the one that
/// `String::from_utf8` makes of the vector that `String::into_bytes` gave on
/// the first.
pub proof fn string_round_trip(unique: String, aliasable: AliasableString, back: String)
    requires
        call_ensures(AliasableString::from_unique, (unique,), aliasable),
        call_ensures(AliasableString::into_unique, (aliasable,), back),
    ensures
        back@ == unique@,
        (exists|bytes: Vec<u8>|
            #![trigger AliasableString::bytes_of(unique, bytes)]
            AliasableString::bytes_of(unique, bytes) && AliasableString::text_of(bytes, back)),
{
    let bytes = aliasable.buffer().unique();
    assert(AliasableString::bytes_of(unique, bytes) && AliasableString::text_of(bytes, back));
}

/// What is read through a handle over a borrow is what the borrow read.
pub proof fn mut_content_preserved<'a, T: ?Sized>(
    unique: &'a mut T,
    aliasable: AliasableMut<'a, T>,
    read: &T,
)
    requires
        call_ensures(AliasableMut::<'a, T>::from_unique, (unique,), aliasable),
        call_ensures(AliasableMut::<'a, T>::deref, (&aliasable,), read),
    ensures
        read == &*old(unique),
{
}

/// What is read through a boxed handle is what the box held.
pub proof fn box_content_preserved<T: ?Sized>(
    unique: Box<T>,
    aliasable: AliasableBox<T>,
    read: &T,
)
    requires
        call_ensures(AliasableBox::<T>::from_unique, (unique,), aliasable),
        call_ensures(AliasableBox::<T>::deref, (&aliasable,), read),
    ensures
        read == &*unique,
{
}

/// What is read through a buffer handle is what the vector held, and the
/// handle's length is the vector's.
pub proof fn vec_content_preserved<T>(
    unique: Vec<T>,
    aliasable: AliasableVec<T>,
    read: &[T],
    len: usize,
)
    requires
        call_ensures(AliasableVec::<T>::from_unique, (unique,), aliasable),
        call_ensures(AliasableVec::<T>::deref, (&aliasable,), read),
        call_ensures(AliasableVec::<T>::len, (&aliasable,), len),
    ensures
        read@ == unique@,
        len == unique.len(),
{
}

/// The address and the capacity that a buffer handle reports are ones that
/// the vector it was made from gave, and the handle converts back into that
/// vector.
pub proof fn vec_parts_are_those_of_unique<T>(
    unique: Vec<T>,
    aliasable: AliasableVec<T>,
    address: usize,
    capacity: usize,
)
    requires
        call_ensures(AliasableVec::<T>::from_unique, (unique,), aliasable),
        call_ensures(AliasableVec::<T>::as_ptr, (&aliasable,), address),
        call_ensures(AliasableVec::<T>::capacity, (&aliasable,), capacity),
    ensures
        AliasableVec::<T>::address_of(unique, address),
        AliasableVec::<T>::capacity_of(unique, capacity),
        aliasable.unique() == unique,
        unique.len() <= capacity,
        address != 0,
{
}

/// What is read through a text handle is the text that the string held, and
/// the bytes that the handle gives up are its UTF-8 encoding.
pub proof fn string_content_preserved(
    unique: String,
    aliasable: AliasableString,
    read: &str,
    bytes: AliasableVec<u8>,
)
    requires
        call_ensures(AliasableString::from_unique, (unique,), aliasable),
        call_ensures(AliasableString::deref, (&aliasable,), read),
        call_ensures(AliasableString::into_bytes, (aliasable,), bytes),
    ensures
        read@ == unique@,
        bytes@ == encode_utf8(unique@),
{
}

/// A clone of a buffer holds, place by place, clones of its elements; where
/// a clone of an element is the element, the clone holds what the buffer
/// holds.
pub proof fn vec_clone_is_equal<T: Clone>(source: &AliasableVec<T>, copy: AliasableVec<T>)
    requires
        call_ensures(AliasableVec::<T>::clone, (source,), copy),
        forall|x: T, y: T| #[trigger] cloned::<T>(x, y) ==> x == y,
    ensures
        copy@ == source@,
{
    assert(copy@ =~= source@);
}

/// A clone of a buffer that holds something has a buffer of its own: the
/// address it reports is not the one that the source reports.
pub proof fn vec_clone_is_another_buffer<T: Clone>(source: &AliasableVec<T>, copy: AliasableVec<T>)
    requires
        call_ensures(AliasableVec::<T>::clone, (source,), copy),
        source@.len() > 0,
        vstd::layout::size_of::<T>() > 0,
    ensures
        copy.spec_addr() != source.spec_addr(),
        copy.parts_recorded(),
{
}

/// A clone of a text that is not empty has a buffer of its own.
pub proof fn string_clone_is_another_buffer(source: &AliasableString, copy: AliasableString)
    requires
        call_ensures(AliasableString::clone, (source,), copy),
        source.buffer()@.len() > 0,
    ensures
        copy@ == source@,
        copy.buffer().spec_addr() != source.buffer().spec_addr(),
{
}

/// After `clone_from` the receiver holds, place by place, clones of the
/// source's elements, whether it was the shorter or the longer of the two,
/// and its length is within its capacity; where a clone of an element is the
/// element, it holds what the source holds.
pub proof fn vec_clone_from_is_equal<T: Clone>(
    receiver: &mut AliasableVec<T>,
    source: &AliasableVec<T>,
)
    requires
        call_ensures(AliasableVec::<T>::clone_from, (receiver, source), ()),
        forall|x: T, y: T| #[trigger] cloned::<T>(x, y) ==> x == y,
    ensures
        final(receiver)@ == source@,
        final(receiver)@.len() <= final(receiver).spec_capacity(),
{
    assert(final(receiver)@ =~= source@);
}

/// A clone of a text holds the text, and so does the receiver of
/// `clone_from`.
pub proof fn string_clone_is_equal(
    source: &AliasableString,
    copy: AliasableString,
    receiver: &mut AliasableString,
)
    requires
        call_ensures(AliasableString::clone, (source,), copy),
        call_ensures(AliasableString::clone_from, (receiver, source), ()),
    ensures
        copy@ == source@,
        final(receiver)@ == source@,
{
}

/// Two buffers of elements of two types are `==` exactly when they are of
/// one length and each element of the first is `==` to the element of the
/// second at its place.
pub proof fn vec_eq_is_pointwise<T: PartialEq<U>, U>(
    a: &AliasableVec<T>,
    b: &AliasableVec<U>,
    eq: bool,
)
    requires
        <T as PartialEqSpec<U>>::obeys_eq_spec(),
        call_ensures(AliasableVec::<T>::eq, (a, b), eq),
    ensures
        eq == pointwise_eq(a@, b@),
{
}

/// A default buffer is a handle that `from_unique` gives on a new vector.
pub proof fn vec_default_is_from_new<T>(default: AliasableVec<T>)
    requires
        call_ensures(AliasableVec::<T>::default, (), default),
    ensures
        (exists|unique: Vec<T>|
            #![trigger call_ensures(AliasableVec::<T>::from_unique, (unique,), default)]
            {
                &&& call_ensures(Vec::<T>::new, (), unique)
                &&& call_ensures(AliasableVec::<T>::from_unique, (unique,), default)
                &&& default.unique() == unique
                &&& default.parts_recorded()
            }),
{
    let unique = choose|unique: Vec<T>|
        #![trigger call_ensures(AliasableVec::<T>::from_unique, (unique,), default)]
        call_ensures(Vec::<T>::new, (), unique) && call_ensures(
            AliasableVec::<T>::from_unique,
            (unique,),
            default,
        );
    assert(default.unique() == unique && default.parts_recorded());
}

/// A default buffer is empty, as the handle made from a new vector is.
pub proof fn vec_default_is_empty<T>(
    default: AliasableVec<T>,
    unique: Vec<T>,
    aliasable: AliasableVec<T>,
)
    requires
        call_ensures(AliasableVec::<T>::default, (), default),
        call_ensures(Vec::<T>::new, (), unique),
        call_ensures(AliasableVec::<T>::from_unique, (unique,), aliasable),
    ensures
        default@ == Seq::<T>::empty(),
        default@ == aliasable@,
{
}

/// A default text is empty, as the handle made from a new string is.
pub proof fn string_default_is_empty(
    default: AliasableString,
    unique: String,
    aliasable: AliasableString,
)
    requires
        call_ensures(AliasableString::default, (), default),
        call_ensures(String::new, (), unique),
        call_ensures(AliasableString::from_unique, (unique,), aliasable),
    ensures
        default@ == Seq::<char>::empty(),
        default@ == aliasable@,
{
}

/// A default box holds a default value.
pub proof fn box_default_is_default<T: Default>(default: AliasableBox<T>)
    requires
        call_ensures(AliasableBox::<T>::default, (), default),
    ensures
        call_ensures(T::default, (), *default.unique()),
{
}

/// The six comparisons of two handles over borrows give what the same
/// comparisons of the borrowed values give.
pub proof fn mut_comparisons_follow_content<'a, T: PartialOrd + ?Sized>(
    a: &AliasableMut<'a, T>,
    b: &AliasableMut<'a, T>,
    eq: bool,
    ne: bool,
    lt: bool,
    le: bool,
    gt: bool,
    ge: bool,
)
    requires
        T::obeys_eq_spec(),
        T::obeys_partial_cmp_spec(),
        call_ensures(AliasableMut::<'a, T>::eq, (a, b), eq),
        call_ensures(AliasableMut::<'a, T>::ne, (a, b), ne),
        call_ensures(AliasableMut::<'a, T>::lt, (a, b), lt),
        call_ensures(AliasableMut::<'a, T>::le, (a, b), le),
        call_ensures(AliasableMut::<'a, T>::gt, (a, b), gt),
        call_ensures(AliasableMut::<'a, T>::ge, (a, b), ge),
    ensures
        eq == PartialEqSpec::eq_spec(&*a.unique(), &*b.unique()),
        ne == !PartialEqSpec::eq_spec(&*a.unique(), &*b.unique()),
        lt == (PartialOrdSpec::partial_cmp_spec(&*a.unique(), &*b.unique()) == Some(core::cmp::Ordering::Less)),
        le == (PartialOrdSpec::partial_cmp_spec(&*a.unique(), &*b.unique()) matches Some(
            core::cmp::Ordering::Less
            | core::cmp::Ordering::Equal,
        )),
        gt == (PartialOrdSpec::partial_cmp_spec(&*a.unique(), &*b.unique()) == Some(core::cmp::Ordering::Greater)),
        ge == (PartialOrdSpec::partial_cmp_spec(&*a.unique(), &*b.unique()) matches Some(
            core::cmp::Ordering::Greater
            | core::cmp::Ordering::Equal,
        )),
{
}

/// The six comparisons of two boxed handles give what the same comparisons
/// of the boxed values give.
pub proof fn box_comparisons_follow_content<T: PartialOrd + ?Sized>(
    a: &AliasableBox<T>,
    b: &AliasableBox<T>,
    eq: bool,
    ne: bool,
    lt: bool,
    le: bool,
    gt: bool,
    ge: bool,
)
    requires
        T::obeys_eq_spec(),
        T::obeys_partial_cmp_spec(),
        call_ensures(AliasableBox::<T>::eq, (a, b), eq),
        call_ensures(AliasableBox::<T>::ne, (a, b), ne),
        call_ensures(AliasableBox::<T>::lt, (a, b), lt),
        call_ensures(AliasableBox::<T>::le, (a, b), le),
        call_ensures(AliasableBox::<T>::gt, (a, b), gt),
        call_ensures(AliasableBox::<T>::ge, (a, b), ge),
    ensures
        eq == PartialEqSpec::eq_spec(&*a.unique(), &*b.unique()),
        ne == !PartialEqSpec::eq_spec(&*a.unique(), &*b.unique()),
        lt == (PartialOrdSpec::partial_cmp_spec(&*a.unique(), &*b.unique()) == Some(core::cmp::Ordering::Less)),
        le == (PartialOrdSpec::partial_cmp_spec(&*a.unique(), &*b.unique()) matches Some(
            core::cmp::Ordering::Less
            | core::cmp::Ordering::Equal,
        )),
        gt == (PartialOrdSpec::partial_cmp_spec(&*a.unique(), &*b.unique()) == Some(core::cmp::Ordering::Greater)),
        ge == (PartialOrdSpec::partial_cmp_spec(&*a.unique(), &*b.unique()) matches Some(
            core::cmp::Ordering::Greater
            | core::cmp::Ordering::Equal,
        )),
{
}

/// The six comparisons of two buffers give what their elements give: `==`
/// element by element, the order lexicographically.
pub proof fn vec_comparisons_follow_content<T: PartialOrd>(
    a: &AliasableVec<T>,
    b: &AliasableVec<T>,
    eq: bool,
    ne: bool,
    lt: bool,
    le: bool,
    gt: bool,
    ge: bool,
)
    requires
        T::obeys_eq_spec(),
        T::obeys_partial_cmp_spec(),
        call_ensures(AliasableVec::<T>::eq, (a, b), eq),
        call_ensures(AliasableVec::<T>::ne, (a, b), ne),
        call_ensures(AliasableVec::<T>::lt, (a, b), lt),
        call_ensures(AliasableVec::<T>::le, (a, b), le),
        call_ensures(AliasableVec::<T>::gt, (a, b), gt),
        call_ensures(AliasableVec::<T>::ge, (a, b), ge),
    ensures
        eq == pointwise_eq(a@, b@),
        ne == !pointwise_eq(a@, b@),
        lt == (lexicographic(a@, b@) == Some(core::cmp::Ordering::Less)),
        le == (lexicographic(a@, b@) matches Some(
            core::cmp::Ordering::Less
            | core::cmp::Ordering::Equal,
        )),
        gt == (lexicographic(a@, b@) == Some(core::cmp::Ordering::Greater)),
        ge == (lexicographic(a@, b@) matches Some(
            core::cmp::Ordering::Greater
            | core::cmp::Ordering::Equal,
        )),
{
}

/// The six comparisons of two texts give what the texts give: `==` of the
/// characters, and the order of the UTF-8 encodings, byte by byte.
pub proof fn string_comparisons_follow_content(
    a: &AliasableString,
    b: &AliasableString,
    eq: bool,
    ne: bool,
    lt: bool,
    le: bool,
    gt: bool,
    ge: bool,
)
    requires
        call_ensures(AliasableString::eq, (a, b), eq),
        call_ensures(AliasableString::ne, (a, b), ne),
        call_ensures(AliasableString::lt, (a, b), lt),
        call_ensures(AliasableString::le, (a, b), le),
        call_ensures(AliasableString::gt, (a, b), gt),
        call_ensures(AliasableString::ge, (a, b), ge),
    ensures
        eq == (a@ == b@),
        ne == !(a@ == b@),
        lt == (lexicographic::<u8>(encode_utf8(a@), encode_utf8(b@)) == Some(core::cmp::Ordering::Less)),
        le == (lexicographic::<u8>(encode_utf8(a@), encode_utf8(b@)) matches Some(
            core::cmp::Ordering::Less
            | core::cmp::Ordering::Equal,
        )),
        gt == (lexicographic::<u8>(encode_utf8(a@), encode_utf8(b@)) == Some(core::cmp::Ordering::Greater)),
        ge == (lexicographic::<u8>(encode_utf8(a@), encode_utf8(b@)) matches Some(
            core::cmp::Ordering::Greater
            | core::cmp::Ordering::Equal,
        )),
{
}

/// Texts are totally ordered: every text is equal to itself, any two texts
/// have an order, that order turns round when the texts change places, and
/// two texts compare as equal exactly when they are `==`.
pub proof fn string_order_is_total(a: &AliasableString, b: &AliasableString)
    ensures
        a.partial_cmp_spec(a) == Some(core::cmp::Ordering::Equal),
        a.partial_cmp_spec(b) is Some,
        a.partial_cmp_spec(b) == Some(core::cmp::Ordering::Less) <==> b.partial_cmp_spec(a)
            == Some(core::cmp::Ordering::Greater),
        a.partial_cmp_spec(b) == Some(core::cmp::Ordering::Equal) <==> a.eq_spec(b),
{
    let x = encode_utf8(a@);
    let y = encode_utf8(b@);
    crate::lexical::lexicographic_reflexive::<u8>(x);
    crate::lexical::lexicographic_total::<u8>(x, y);
    crate::lexical::lexicographic_antisymmetric::<u8>(x, y);
    crate::lexical::lexicographic_equal_is_pointwise_eq::<u8>(x, y);
    if pointwise_eq(x, y) {
        assert(x =~= y);
        vstd::utf8::encode_utf8_decode_utf8(a@);
        vstd::utf8::encode_utf8_decode_utf8(b@);
    }
}

/// A pinned borrow that is made a pinned handle and converted back is a
/// pinned borrow of the same place: the pin that comes back holds one
/// borrow, which reads and writes what a borrow in the first pin did.
pub proof fn mut_pin_round_trip<'a, T: Unpin + ?Sized>(
    pin: Pin<&'a mut T>,
    aliasable: Pin<AliasableMut<'a, T>>,
    back: Pin<&'a mut T>,
)
    requires
        call_ensures(AliasableMut::<'a, T>::from_unique_pin, (pin,), aliasable),
        call_ensures(AliasableMut::<'a, T>::into_unique_pin, (aliasable,), back),
    ensures
        (exists|unique: &'a mut T, returned: &'a mut T|
            #![trigger holds(pin, unique), holds(back, returned)]
            {
                &&& holds(pin, unique)
                &&& holds_only(back, returned)
                &&& &*returned == &*unique
                &&& &*final(returned) == &*final(unique)
            }),
{
    let (unique, handle) = choose|unique: &'a mut T, handle: AliasableMut<'a, T>|
        #![trigger holds(pin, unique), holds(aliasable, handle)]
        {
            &&& holds(pin, unique)
            &&& &*handle.unique() == &*unique
            &&& &*final(handle.unique()) == &*final(unique)
            &&& holds_only(aliasable, handle)
        };
    let (held, returned) = choose|held: AliasableMut<'a, T>, returned: &'a mut T|
        #![trigger holds(aliasable, held), holds(back, returned)]
        {
            &&& holds(aliasable, held)
            &&& &*returned == &*held.unique()
            &&& &*final(returned) == &*final(held.unique())
            &&& holds_only(back, returned)
        };
    assert(held == handle);
    assert(holds(pin, unique) && holds_only(back, returned) && &*returned == &*unique
        && &*final(returned) == &*final(unique));
}

/// A pinned box that is made a pinned handle and converted back is the box
/// it was: the pin that comes back holds one box, a box that the first pin
/// held. The allocation was not moved.
pub proof fn box_pin_round_trip<T: Unpin + ?Sized>(
    pin: Pin<Box<T>>,
    aliasable: Pin<AliasableBox<T>>,
    back: Pin<Box<T>>,
)
    requires
        call_ensures(AliasableBox::<T>::from_unique_pin, (pin,), aliasable),
        call_ensures(AliasableBox::<T>::into_unique_pin, (aliasable,), back),
    ensures
        (exists|unique: Box<T>|
            #![trigger holds(pin, unique)]
            holds(pin, unique) && holds_only(back, unique)),
{
    let unique = choose|unique: Box<T>|
        #![trigger holds(pin, unique)]
        holds(pin, unique) && holds_only(aliasable, AliasableBox::wrap(unique));
    let held = choose|held: AliasableBox<T>|
        #![trigger holds(aliasable, held)]
        holds(aliasable, held) && holds_only(back, held.unique());
    assert(held == AliasableBox::wrap(unique));
    AliasableBox::wrap_and_unique_are_inverse(unique, held);
    assert(holds(pin, unique) && holds_only(back, unique));
}

/// A pinned vector that is made a pinned handle and converted back is the
/// vector it was: the pin that comes back holds one vector, a vector that
/// the first pin held. The buffer was not moved.
pub proof fn vec_pin_round_trip<T: Unpin>(
    pin: Pin<Vec<T>>,
    aliasable: Pin<AliasableVec<T>>,
    back: Pin<Vec<T>>,
)
    requires
        call_ensures(AliasableVec::<T>::from_unique_pin, (pin,), aliasable),
        call_ensures(AliasableVec::<T>::into_unique_pin, (aliasable,), back),
    ensures
        (exists|unique: Vec<T>|
            #![trigger holds_slice(pin, unique)]
            holds_slice(pin, unique) && holds_only_slice(back, unique)),
{
    let (unique, handle) = choose|unique: Vec<T>, handle: AliasableVec<T>|
        #![trigger holds_slice(pin, unique), holds_slice(aliasable, handle)]
        {
            &&& holds_slice(pin, unique)
            &&& handle.unique() == unique
            &&& holds_only_slice(aliasable, handle)
        };
    let held = choose|held: AliasableVec<T>|
        #![trigger holds_slice(aliasable, held)]
        holds_slice(aliasable, held) && holds_only_slice(back, held.unique());
    assert(held == handle);
    assert(holds_slice(pin, unique) && holds_only_slice(back, unique));
}

/// A pinned string that is made a pinned handle and converted back holds
/// the text it held, in the buffer it had: the pin that comes back holds one
/// string, the one that `String::from_utf8` makes of the vector that
/// `String::into_bytes` gave on a string that the first pin held.
pub proof fn string_pin_round_trip(
    pin: Pin<String>,
    aliasable: Pin<AliasableString>,
    back: Pin<String>,
)
    requires
        call_ensures(AliasableString::from_unique_pin, (pin,), aliasable),
        call_ensures(AliasableString::into_unique_pin, (aliasable,), back),
    ensures
        (exists|unique: String, bytes: Vec<u8>, returned: String|
            #![trigger holds_str(pin, unique), AliasableString::text_of(bytes, returned)]
            {
                &&& holds_str(pin, unique)
                &&& AliasableString::bytes_of(unique, bytes)
                &&& AliasableString::text_of(bytes, returned)
                &&& holds_only_str(back, returned)
                &&& returned@ == unique@
            }),
{
    let (unique, handle) = choose|unique: String, handle: AliasableString|
        #![trigger holds_str(pin, unique), holds_str(aliasable, handle)]
        {
            &&& holds_str(pin, unique)
            &&& handle@ == unique@
            &&& AliasableString::bytes_of(unique, handle.buffer().unique())
            &&& holds_only_str(aliasable, handle)
        };
    let (held, returned) = choose|held: AliasableString, returned: String|
        #![trigger holds_str(aliasable, held), holds_str(back, returned)]
        {
            &&& holds_str(aliasable, held)
            &&& returned@ == held@
            &&& AliasableString::text_of(held.buffer().unique(), returned)
            &&& holds_only_str(back, returned)
        };
    assert(held == handle);
    let bytes = handle.buffer().unique();
    assert(holds_str(pin, unique) && AliasableString::bytes_of(unique, bytes)
        && AliasableString::text_of(bytes, returned) && holds_only_str(back, returned)
        && returned@ == unique@);
}

} // verus!
