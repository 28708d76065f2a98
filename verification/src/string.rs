//! The handle form of `String`.

use vstd::prelude::*;
use vstd::utf8::decode_utf8;
use vstd::utf8::encode_utf8;
use vstd::utf8::valid_utf8;
use crate::fed::feed_formatter;
use crate::fed::feed_hasher;
use crate::fed::formatted_into;
use crate::fed::hashed_into;
use crate::std_specs::str_from_utf8_mut;
use crate::lexical::lexicographic;
use crate::vec::AliasableVec;

pub use std::string::String as UniqueString;

verus! {

/// The handle form of a [`UniqueString`]: an [`AliasableVec`] of bytes that
/// are valid UTF-8 at all times. The handle keeps the string's own buffer.
#[derive(Eq, Ord)]
pub struct AliasableString {
    bytes: AliasableVec<u8>,
}

impl View for AliasableString {
    type V = Seq<char>;

    closed spec fn view(&self) -> Seq<char> {
        decode_utf8(self.bytes@)
    }
}

impl AliasableString {
    /// The bytes are valid UTF-8.
    #[verifier::type_invariant]
    spec fn well_formed(self) -> bool {
        valid_utf8(self.bytes@)
    }

    /// The buffer of bytes that this text is stored in.
    pub closed spec fn buffer(self) -> AliasableVec<u8> {
        self.bytes
    }

    /// `bytes` is the vector that `String::into_bytes` gave on `s`: the
    /// string's own buffer, not a copy of it.
    pub closed spec fn bytes_of(s: String, bytes: Vec<u8>) -> bool {
        call_ensures(String::into_bytes, (s,), bytes)
    }

    /// `s` is the string that `String::from_utf8` made of `bytes`: a string
    /// in that buffer, not in a copy of it.
    pub closed spec fn text_of(bytes: Vec<u8>, s: String) -> bool {
        call_ensures(String::from_utf8, (bytes,), Ok::<String, std::string::FromUtf8Error>(s))
    }

    /// Consumes `self` into an [`AliasableVec`] of UTF-8 bytes.
    pub fn into_bytes(self) -> (r: AliasableVec<u8>)
        ensures
            r == self.buffer(),
            r@ == encode_utf8(self@),
            valid_utf8(r@),
    {
        proof {
            use_type_invariant(&self);
            vstd::utf8::decode_utf8_encode_utf8(self.bytes@);
        }
        self.bytes
    }

    /// Construct an `AliasableString` from a [`UniqueString`].
    pub fn from_unique(s: String) -> (r: Self)
        ensures
            r@ == s@,
            r.buffer()@ == encode_utf8(s@),
            Self::bytes_of(s, r.buffer().unique()),
            r.buffer().parts_recorded(),
            r.buffer()@.len() <= r.buffer().spec_capacity(),
    {
        let bytes = s.into_bytes();
        proof {
            vstd::utf8::encode_utf8_valid_utf8(s@);
            vstd::utf8::encode_utf8_decode_utf8(s@);
        }
        AliasableString { bytes: AliasableVec::from_unique(bytes) }
    }

    /// Consumes `self` and converts it into a [`UniqueString`].
    pub fn into_unique(s: Self) -> (r: String)
        ensures
            r@ == s@,
            Self::text_of(s.buffer().unique(), r),
    {
        proof {
            use_type_invariant(&s);
        }
        let bytes = AliasableVec::into_unique(s.into_bytes());
        match String::from_utf8(bytes) {
            Ok(unique) => {
                proof {
                    vstd::utf8::encode_utf8_decode_utf8(unique@);
                }
                unique
            },
            Err(_) => vstd::pervasive::unreached(),
        }
    }
}

impl AliasableString {
    /// The text, for reading.
    pub fn as_str(&self) -> (r: &str)
        ensures
            r@ == self@,
    {
        proof {
            use_type_invariant(self);
        }
        match core::str::from_utf8(self.bytes.as_slice()) {
            Ok(text) => {
                proof {
                    vstd::utf8::encode_utf8_decode_utf8(text@);
                }
                text
            },
            Err(_) => vstd::pervasive::unreached(),
        }
    }

    /// The text, for writing. What is written is text, so the bytes stay
    /// valid UTF-8.
    pub fn as_mut_str(&mut self) -> (r: &mut str)
        ensures
            r@ == old(self)@,
            final(r)@ == final(self)@,
            final(self).buffer().spec_addr() == old(self).buffer().spec_addr(),
            final(self).buffer().spec_capacity() == old(self).buffer().spec_capacity(),
            final(self).buffer()@.len() == old(self).buffer()@.len(),
            final(self).buffer().parts_recorded(),
            final(self).buffer()@.len() <= final(self).buffer().spec_capacity(),
    {
        broadcast use vstd::utf8::encode_utf8_valid_utf8, vstd::utf8::encode_utf8_decode_utf8;

        proof {
            use_type_invariant(&*self);
        }
        text_mut(&mut self.bytes)
    }
}

/// The text that valid UTF-8 bytes hold, for writing.
fn text_mut(bytes: &mut AliasableVec<u8>) -> (r: &mut str)
    requires
        valid_utf8(old(bytes)@),
    ensures
        encode_utf8(r@) == old(bytes)@,
        encode_utf8(final(r)@) == final(bytes)@,
        final(bytes).spec_addr() == old(bytes).spec_addr(),
        final(bytes).spec_capacity() == old(bytes).spec_capacity(),
        final(bytes)@.len() == old(bytes)@.len(),
        final(bytes).parts_recorded(),
        final(bytes)@.len() <= final(bytes).spec_capacity(),
    no_unwind
{
    match str_from_utf8_mut(bytes.as_mut_slice()) {
        Ok(text) => text,
        Err(_) => vstd::pervasive::unreached(),
    }
}

impl core::ops::Deref for AliasableString {
    type Target = str;

    fn deref(&self) -> (r: &str)
        ensures
            r@ == self@,
    {
        self.as_str()
    }
}

impl core::ops::DerefMut for AliasableString {
    fn deref_mut(&mut self) -> (r: &mut str)
        ensures
            r@ == old(self)@,
            final(r)@ == final(self)@,
            final(self).buffer().spec_addr() == old(self).buffer().spec_addr(),
            final(self).buffer().spec_capacity() == old(self).buffer().spec_capacity(),
            final(self).buffer()@.len() == old(self).buffer()@.len(),
            final(self).buffer().parts_recorded(),
            final(self).buffer()@.len() <= final(self).buffer().spec_capacity(),
    {
        self.as_mut_str()
    }
}

impl core::convert::AsRef<str> for AliasableString {
    fn as_ref(&self) -> (r: &str)
        ensures
            r@ == self@,
    {
        self.as_str()
    }
}

impl core::convert::AsMut<str> for AliasableString {
    fn as_mut(&mut self) -> (r: &mut str)
        ensures
            r@ == old(self)@,
            final(r)@ == final(self)@,
            final(self).buffer().spec_addr() == old(self).buffer().spec_addr(),
            final(self).buffer().spec_capacity() == old(self).buffer().spec_capacity(),
            final(self).buffer()@.len() == old(self).buffer()@.len(),
            final(self).buffer().parts_recorded(),
            final(self).buffer()@.len() <= final(self).buffer().spec_capacity(),
    {
        self.as_mut_str()
    }
}

impl core::convert::From<String> for AliasableString {
    fn from(s: String) -> (r: Self)
        ensures
            r@ == s@,
            r.buffer()@ == encode_utf8(s@),
            Self::bytes_of(s, r.buffer().unique()),
            r.buffer().parts_recorded(),
            r.buffer()@.len() <= r.buffer().spec_capacity(),
    {
        Self::from_unique(s)
    }
}

impl vstd::std_specs::convert::FromSpecImpl<String> for AliasableString {
    /// The buffer records an address and a capacity that come from the
    /// allocator's work, so the text is stated by what it holds, in `from`'s
    /// own clauses.
    open spec fn obeys_from_spec() -> bool {
        false
    }

    open spec fn from_spec(s: String) -> Self {
        arbitrary()
    }
}

impl core::convert::From<AliasableString> for String {
    fn from(s: AliasableString) -> (r: Self)
        ensures
            r@ == s@,
            AliasableString::text_of(s.buffer().unique(), r),
    {
        AliasableString::into_unique(s)
    }
}

impl vstd::std_specs::convert::FromSpecImpl<AliasableString> for String {
    /// A string is known by its characters alone, so it is stated by them,
    /// in `from`'s own clause.
    open spec fn obeys_from_spec() -> bool {
        false
    }

    open spec fn from_spec(s: AliasableString) -> Self {
        arbitrary()
    }
}

impl Default for AliasableString {
    fn default() -> (r: Self)
        ensures
            r@ == Seq::<char>::empty(),
            r.buffer().parts_recorded(),
            r.buffer()@.len() <= r.buffer().spec_capacity(),
    {
        Self::from_unique(String::default())
    }
}

impl Clone for AliasableString {
    fn clone(&self) -> (r: Self)
        ensures
            r@ == self@,
            r.buffer().parts_recorded(),
            r.buffer()@.len() <= r.buffer().spec_capacity(),
            self.buffer()@.len() > 0 ==> r.buffer().spec_addr() != self.buffer().spec_addr(),
    {
        proof {
            use_type_invariant(self);
        }
        broadcast use vstd::layout::layout_of_primitives;

        let bytes = self.bytes.clone();
        assert(bytes@ =~= self.bytes@);
        AliasableString { bytes }
    }

    fn clone_from(&mut self, source: &Self)
        ensures
            final(self)@ == source@,
            final(self).buffer().parts_recorded(),
            final(self).buffer()@.len() <= final(self).buffer().spec_capacity(),
    {
        AliasableString::clone_from(self, source)
    }
}

impl AliasableString {
    /// Makes the text a copy of `source`'s, in the room that the buffer
    /// already has where that is enough.
    pub fn clone_from(&mut self, source: &Self)
        ensures
            final(self)@ == source@,
            final(self).buffer().parts_recorded(),
            final(self).buffer()@.len() <= final(self).buffer().spec_capacity(),
    {
        proof {
            use_type_invariant(source);
        }
        let mut taken = Self::default();
        core::mem::swap(self, &mut taken);
        let mut bytes = taken.into_bytes();
        bytes.clone_from(&source.bytes);
        assert(bytes@ =~= source.bytes@);
        *self = AliasableString { bytes };
    }
}

impl core::hash::Hash for AliasableString {
    fn hash<H: core::hash::Hasher>(&self, state: &mut H)
        ensures
            (exists|text: &str, fed: &mut H|
                #![trigger hashed_into::<str, H>(text, fed)]
                {
                    &&& text@ == self@
                    &&& *fed == *old(state)
                    &&& *final(fed) == *final(state)
                    &&& hashed_into::<str, H>(text, fed)
                }),
    {
        let text = self.as_str();
        feed_hasher(text, state);
        proof {
            let fed = choose|fed: &mut H|
                *fed == *old(state) && *final(fed) == *final(state) && hashed_into::<str, H>(
                    text,
                    fed,
                );
            assert(hashed_into::<str, H>(text, fed));
        }
    }
}

impl core::fmt::Debug for AliasableString {
    fn fmt<'b>(&self, f: &mut core::fmt::Formatter<'b>) -> (r: Result<(), core::fmt::Error>)
        ensures
            (exists|text: &str, fed: &mut core::fmt::Formatter<'b>|
                #![trigger formatted_into::<str>(text, fed, r)]
                {
                    &&& text@ == self@
                    &&& *fed == *old(f)
                    &&& *final(fed) == *final(f)
                    &&& formatted_into::<str>(text, fed, r)
                }),
    {
        let text = self.as_str();
        let r = feed_formatter(text, f);
        proof {
            let fed = choose|fed: &mut core::fmt::Formatter<'b>|
                *fed == *old(f) && *final(fed) == *final(f) && formatted_into::<str>(
                    text,
                    fed,
                    r,
                );
            assert(formatted_into::<str>(text, fed, r));
        }
        r
    }
}

impl PartialEq for AliasableString {
    fn eq(&self, other: &Self) -> (r: bool) {
        proof {
            use_type_invariant(self);
            use_type_invariant(other);
            vstd::utf8::decode_utf8_encode_utf8(self.bytes@);
            vstd::utf8::decode_utf8_encode_utf8(other.bytes@);
        }
        let r = self.bytes == other.bytes;
        assert(r <==> self.bytes@ =~= other.bytes@);
        r
    }
}

impl vstd::std_specs::cmp::PartialEqSpecImpl for AliasableString {
    open spec fn obeys_eq_spec() -> bool {
        true
    }

    open spec fn eq_spec(&self, other: &Self) -> bool {
        self@ == other@
    }
}

impl PartialOrd for AliasableString {
    fn partial_cmp(&self, other: &Self) -> (r: Option<core::cmp::Ordering>) {
        proof {
            use_type_invariant(self);
            use_type_invariant(other);
            vstd::utf8::decode_utf8_encode_utf8(self.bytes@);
            vstd::utf8::decode_utf8_encode_utf8(other.bytes@);
        }
        self.bytes.partial_cmp(&other.bytes)
    }
}

impl vstd::std_specs::cmp::PartialOrdSpecImpl for AliasableString {
    open spec fn obeys_partial_cmp_spec() -> bool {
        true
    }

    /// Texts are ordered as their UTF-8 encodings are, byte by byte.
    open spec fn partial_cmp_spec(&self, other: &Self) -> Option<core::cmp::Ordering> {
        lexicographic::<u8>(encode_utf8(self@), encode_utf8(other@))
    }
}

} // verus!
