//! What a handle feeds to a hasher and to a formatter.
//!
//! A handle hashes and prints as what it holds does. What std's `Hash` and
//! `Debug` make of a value is theirs to say; what is said here is which value
//! they were given, and which hasher or formatter.

use vstd::prelude::*;
use crate::std_specs::debug_fmt;
use crate::std_specs::hash_into;

verus! {

/// `state` was fed `value` as `Hash::hash` feeds it: it went in as `state`
/// was before, and what `state` is after is what came of it.
pub closed spec fn hashed_into<V: core::hash::Hash + ?Sized, H: core::hash::Hasher>(
    value: &V,
    state: &mut H,
) -> bool {
    call_ensures(hash_into::<V, H>, (value, state), ())
}

/// `to` was given the debug form of `value` as `Debug::fmt` writes it, and
/// `r` is what `Debug::fmt` returned.
pub closed spec fn formatted_into<'a, V: core::fmt::Debug + ?Sized>(
    value: &V,
    to: &mut core::fmt::Formatter<'a>,
    r: Result<(), core::fmt::Error>,
) -> bool {
    call_ensures(debug_fmt::<V>, (value, to), r)
}

/// Feeds `value` to `state` as `Hash::hash` does.
pub(crate) fn feed_hasher<V: core::hash::Hash + ?Sized, H: core::hash::Hasher>(
    value: &V,
    state: &mut H,
)
    ensures
        (exists|fed: &mut H|
            #![trigger hashed_into::<V, H>(value, fed)]
            {
                &&& *fed == *old(state)
                &&& *final(fed) == *final(state)
                &&& hashed_into::<V, H>(value, fed)
            }),
{
    hash_into(value, state);
    proof {
        let fed = choose|fed: &mut H|
            *fed == *old(state) && *final(fed) == *final(state) && call_ensures(
                hash_into::<V, H>,
                (value, fed),
                (),
            );
        assert(hashed_into::<V, H>(value, fed));
    }
}

/// Writes the debug form of `value` to `to` as `Debug::fmt` does.
pub(crate) fn feed_formatter<'a, V: core::fmt::Debug + ?Sized>(
    value: &V,
    to: &mut core::fmt::Formatter<'a>,
) -> (r: Result<(), core::fmt::Error>)
    ensures
        (exists|fed: &mut core::fmt::Formatter<'a>|
            #![trigger formatted_into::<V>(value, fed, r)]
            {
                &&& *fed == *old(to)
                &&& *final(fed) == *final(to)
                &&& formatted_into::<V>(value, fed, r)
            }),
{
    let r = debug_fmt(value, to);
    proof {
        let fed = choose|fed: &mut core::fmt::Formatter<'a>|
            *fed == *old(to) && *final(fed) == *final(to) && call_ensures(
                debug_fmt::<V>,
                (value, fed),
                r,
            );
        assert(formatted_into::<V>(value, fed, r));
    }
    r
}

} // verus!
