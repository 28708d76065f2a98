//! What this crate takes on trust from the standard library.

use vstd::prelude::*;

verus! {

/// `core::fmt::Formatter`, handed on unopened.
#[verifier::external_type_specification]
#[verifier::external_body]
pub struct ExFormatter<'a>(core::fmt::Formatter<'a>);

/// `core::fmt::Error`, handed on unopened.
#[verifier::external_type_specification]
#[verifier::external_body]
pub struct ExFmtError(core::fmt::Error);

/// `Hash::hash`: feeds `value` to `state`. Nothing is claimed about the
/// state afterwards.
#[verifier::external_body]
pub(crate) fn hash_into<V: core::hash::Hash + ?Sized, H: core::hash::Hasher>(
    value: &V,
    state: &mut H,
) {
    value.hash(state)
}

/// `Debug::fmt`: writes the debug form of `value` to `f`. Nothing is claimed
/// about what was written, nor about whether the formatter took it.
#[verifier::external_body]
pub(crate) fn debug_fmt<V: core::fmt::Debug + ?Sized>(
    value: &V,
    f: &mut core::fmt::Formatter<'_>,
) -> (r: Result<(), core::fmt::Error>) {
    core::fmt::Debug::fmt(value, f)
}

/// `Vec::capacity`: a vector can hold at least the elements it holds.
#[verifier::external_body]
pub(crate) fn vec_capacity<V>(v: &Vec<V>) -> (c: usize)
    ensures
        c >= v@.len(),
{
    v.capacity()
}

/// `Vec::as_ptr`, as an address: the buffer of a vector is never at null,
/// allocated or not.
#[verifier::external_body]
pub(crate) fn buffer_address<V>(v: &Vec<V>) -> (addr: usize)
    ensures
        addr != 0,
{
    v.as_ptr() as usize
}

/// `Vec::clone`: a vector of clones of the elements, each at its place. The
/// clone is made while `v` lives, so where there is something to store (`v`
/// is not empty and its elements have a size), the clone has a buffer of its
/// own: an address that `v` gives is not one that the clone gives.
#[verifier::external_body]
pub(crate) fn vec_clone<V: Clone>(v: &Vec<V>) -> (r: Vec<V>)
    ensures
        r@.len() == v@.len(),
        forall|i: int| 0 <= i < v@.len() ==> cloned::<V>(v@[i], #[trigger] r@[i]),
        v@.len() > 0 && vstd::layout::size_of::<V>() > 0 ==> forall|addr: usize| #[trigger]
            call_ensures(buffer_address::<V>, (v,), addr) ==> !call_ensures(
                buffer_address::<V>,
                (&r,),
                addr,
            ),
{
    v.clone()
}

/// `AsMut::as_mut` of a vector: the whole of its elements, for writing.
/// The slice cannot grow or shrink, so the vector keeps its length; and
/// what is written through it is written in place, so the vector gives the
/// address and the capacity afterwards that it gave before.
#[verifier::external_body]
pub(crate) fn vec_as_mut<V>(v: &mut Vec<V>) -> (s: &mut [V])
    ensures
        s@ == old(v)@,
        final(s)@ == final(v)@,
        final(s)@.len() == s@.len(),
        forall|addr: usize| #[trigger]
            call_ensures(buffer_address::<V>, (&*old(v),), addr) ==> call_ensures(
                buffer_address::<V>,
                (&*final(v),),
                addr,
            ),
        forall|cap: usize| #[trigger]
            call_ensures(vec_capacity::<V>, (&*old(v),), cap) ==> call_ensures(
                vec_capacity::<V>,
                (&*final(v),),
                cap,
            ),
    no_unwind
{
    v.as_mut()
}

/// `core::str::Utf8Error`, never looked into.
#[verifier::external_type_specification]
#[verifier::external_body]
pub struct ExUtf8Error(core::str::Utf8Error);

/// `std::string::FromUtf8Error`, never looked into.
#[verifier::external_type_specification]
#[verifier::external_body]
pub struct ExFromUtf8Error(std::string::FromUtf8Error);

/// `String::into_bytes`: the bytes of a string are the UTF-8 encoding of its
/// characters.
pub assume_specification[ String::into_bytes ](s: String) -> (bytes: Vec<u8>)
    ensures
        bytes@ == vstd::utf8::encode_utf8(s@),
;

/// `String::from_utf8`: succeeds on valid UTF-8 and on nothing else, and the
/// string then has the given bytes.
pub assume_specification[ String::from_utf8 ](bytes: Vec<u8>) -> (r: Result<
    String,
    std::string::FromUtf8Error,
>)
    ensures
        r is Ok <==> vstd::utf8::valid_utf8(bytes@),
        r matches Ok(s) ==> vstd::utf8::encode_utf8(s@) == bytes@,
;

/// `core::str::from_utf8`: succeeds on valid UTF-8 and on nothing else, and
/// the text then has the given bytes.
pub assume_specification[ core::str::from_utf8 ](bytes: &[u8]) -> (r: Result<
    &str,
    core::str::Utf8Error,
>)
    ensures
        r is Ok <==> vstd::utf8::valid_utf8(bytes@),
        r matches Ok(s) ==> vstd::utf8::encode_utf8(s@) == bytes@,
;

/// `core::str::from_utf8_mut`: as `from_utf8`; what is written through the
/// text is written to the bytes, which are the encoding of the text at the
/// end as they were at the start.
#[verifier::external_body]
pub(crate) fn str_from_utf8_mut(bytes: &mut [u8]) -> (r: Result<&mut str, core::str::Utf8Error>)
    ensures
        r is Ok <==> vstd::utf8::valid_utf8(old(bytes)@),
        r matches Ok(s) ==> vstd::utf8::encode_utf8(s@) == old(bytes)@
            && vstd::utf8::encode_utf8(final(s)@) == final(bytes)@,
        r is Err ==> final(bytes)@ == old(bytes)@,
    no_unwind
{
    core::str::from_utf8_mut(bytes)
}

/// `core::pin::Pin`: opaque. Which pointer a pin holds is what
/// `Pin::into_inner` gives on it; see `holds` in `pin`.
#[verifier::external_type_specification]
#[verifier::external_body]
#[verifier::reject_recursive_types(Ptr)]
pub struct ExPin<Ptr>(core::pin::Pin<Ptr>);

/// `Pin::new`, for a pointer to a value that may be moved: the pin made
/// holds the pointer and no other, so `Pin::into_inner` on it gives the
/// pointer back.
///
/// That a slice or a text may be moved where its elements may is not known
/// to the verifier, so pointers to those have wrappers of their own below.
#[verifier::external_body]
pub(crate) fn pin_new<P: core::ops::Deref<Target = X>, X: Unpin + ?Sized>(
    pointer: P,
) -> (pin: core::pin::Pin<P>)
    ensures
        crate::pin::holds_only(pin, pointer),
{
    core::pin::Pin::new(pointer)
}

/// `Pin::into_inner`, for a pointer to a value that may be moved. That a
/// pin holds a pointer means that this call may give it; nothing more is
/// claimed here.
#[verifier::external_body]
pub(crate) fn pin_into_inner<P: core::ops::Deref<Target = X>, X: Unpin + ?Sized>(
    pin: core::pin::Pin<P>,
) -> (pointer: P) {
    core::pin::Pin::into_inner(pin)
}

/// `Pin::new`, for a pointer to a slice of values that may be moved: the
/// pin made holds the pointer and no other.
#[verifier::external_body]
pub(crate) fn pin_new_slice<P: core::ops::Deref<Target = [X]>, X: Unpin>(
    pointer: P,
) -> (pin: core::pin::Pin<P>)
    ensures
        crate::pin::holds_only_slice(pin, pointer),
{
    core::pin::Pin::new(pointer)
}

/// `Pin::into_inner`, for a pointer to a slice of values that may be moved.
/// That a pin holds a pointer means that this call may give it; nothing
/// more is claimed here.
#[verifier::external_body]
pub(crate) fn pin_into_inner_slice<P: core::ops::Deref<Target = [X]>, X: Unpin>(
    pin: core::pin::Pin<P>,
) -> (pointer: P) {
    core::pin::Pin::into_inner(pin)
}

/// `Pin::new`, for a pointer to text: the pin made holds the pointer and no
/// other.
#[verifier::external_body]
pub(crate) fn pin_new_str<P: core::ops::Deref<Target = str>>(
    pointer: P,
) -> (pin: core::pin::Pin<P>)
    ensures
        crate::pin::holds_only_str(pin, pointer),
{
    core::pin::Pin::new(pointer)
}

/// `Pin::into_inner`, for a pointer to text. That a pin holds a pointer
/// means that this call may give it; nothing more is claimed here.
#[verifier::external_body]
pub(crate) fn pin_into_inner_str<P: core::ops::Deref<Target = str>>(
    pin: core::pin::Pin<P>,
) -> (pointer: P) {
    core::pin::Pin::into_inner(pin)
}

} // verus!
