//! The lexicographic order of sequences, by which buffers and texts compare.

use vstd::prelude::*;
use vstd::std_specs::cmp::PartialEqSpec;
use vstd::std_specs::cmp::PartialOrdSpec;

verus! {

/// What is left of `s` from index `i` on.
spec fn tail_from<T>(s: Seq<T>, i: usize) -> Seq<T> {
    s.skip(i as int)
}

/// The lexicographic order of two sequences: that of the first pair of
/// elements that are not equal; where there is none, the shorter sequence
/// comes first.
pub open spec fn lexicographic<T: PartialOrd>(a: Seq<T>, b: Seq<T>) -> Option<core::cmp::Ordering>
    decreases a.len(),
{
    if a.len() == 0 && b.len() == 0 {
        Some(core::cmp::Ordering::Equal)
    } else if a.len() == 0 {
        Some(core::cmp::Ordering::Less)
    } else if b.len() == 0 {
        Some(core::cmp::Ordering::Greater)
    } else {
        match a[0].partial_cmp_spec(&b[0]) {
            Some(core::cmp::Ordering::Equal) => lexicographic(a.drop_first(), b.drop_first()),
            other => other,
        }
    }
}

/// Compares two slices element by element, as `lexicographic` says.
pub fn lexicographic_order<T: PartialOrd>(a: &[T], b: &[T]) -> (r: Option<core::cmp::Ordering>)
    ensures
        T::obeys_partial_cmp_spec() ==> r == lexicographic(a@, b@),
{
    let n = if a.len() < b.len() {
        a.len()
    } else {
        b.len()
    };
    let mut i: usize = 0;
    proof {
        assert(tail_from(a@, 0) =~= a@);
        assert(tail_from(b@, 0) =~= b@);
    }
    while i < n
        invariant
            i <= n,
            n <= a@.len(),
            n <= b@.len(),
            n == a@.len() || n == b@.len(),
            T::obeys_partial_cmp_spec() ==> lexicographic(a@, b@) == lexicographic(
                tail_from(a@, i),
                tail_from(b@, i),
            ),
        decreases n - i,
    {
        let step = a[i].partial_cmp(&b[i]);
        proof {
            assert(tail_from(a@, i).drop_first() =~= a@.skip(i + 1));
            assert(tail_from(b@, i).drop_first() =~= b@.skip(i + 1));
        }
        match step {
            Some(core::cmp::Ordering::Equal) => {},
            other => {
                return other;
            },
        }
        i += 1;
    }
    if a.len() < b.len() {
        Some(core::cmp::Ordering::Less)
    } else if a.len() == b.len() {
        Some(core::cmp::Ordering::Equal)
    } else {
        Some(core::cmp::Ordering::Greater)
    }
}

/// Equality of two sequences element by element, each pair by the elements'
/// own `==`.
pub open spec fn pointwise_eq<T: PartialEq<U>, U>(a: Seq<T>, b: Seq<U>) -> bool {
    &&& a.len() == b.len()
    &&& forall|i: int| #![auto] 0 <= i < a.len() ==> a[i].eq_spec(&b[i])
}

/// Where every element is equal to itself, every sequence is equal to itself.
pub proof fn lexicographic_reflexive<T: PartialOrd>(a: Seq<T>)
    requires
        forall|x: T| #[trigger] x.partial_cmp_spec(&x) == Some(core::cmp::Ordering::Equal),
    ensures
        lexicographic(a, a) == Some(core::cmp::Ordering::Equal),
    decreases a.len(),
{
    if a.len() > 0 {
        lexicographic_reflexive(a.drop_first());
    }
}

/// Where any two elements have an order, any two sequences have one.
pub proof fn lexicographic_total<T: PartialOrd>(a: Seq<T>, b: Seq<T>)
    requires
        forall|x: T, y: T| #[trigger] x.partial_cmp_spec(&y) is Some,
    ensures
        lexicographic(a, b) is Some,
    decreases a.len(),
{
    if a.len() > 0 && b.len() > 0 {
        lexicographic_total(a.drop_first(), b.drop_first());
    }
}

/// Where turning two elements round turns their order round, turning two
/// sequences round turns theirs round: `a < b` exactly when `b > a`, and
/// `a` equal to `b` exactly when `b` is equal to `a`.
pub proof fn lexicographic_antisymmetric<T: PartialOrd>(a: Seq<T>, b: Seq<T>)
    requires
        forall|x: T, y: T| #[trigger]
            x.partial_cmp_spec(&y) == Some(core::cmp::Ordering::Less) <==> y.partial_cmp_spec(&x)
                == Some(core::cmp::Ordering::Greater),
        forall|x: T, y: T| #[trigger]
            x.partial_cmp_spec(&y) == Some(core::cmp::Ordering::Equal) <==> y.partial_cmp_spec(&x)
                == Some(core::cmp::Ordering::Equal),
    ensures
        lexicographic(a, b) == Some(core::cmp::Ordering::Less) <==> lexicographic(b, a) == Some(
            core::cmp::Ordering::Greater,
        ),
        lexicographic(a, b) == Some(core::cmp::Ordering::Greater) <==> lexicographic(b, a) == Some(
            core::cmp::Ordering::Less,
        ),
        lexicographic(a, b) == Some(core::cmp::Ordering::Equal) <==> lexicographic(b, a) == Some(
            core::cmp::Ordering::Equal,
        ),
    decreases a.len(),
{
    if a.len() > 0 && b.len() > 0 {
        lexicographic_antisymmetric(a.drop_first(), b.drop_first());
    }
}

/// The first pair of elements that are not equal decides the order of the
/// two sequences.
pub proof fn lexicographic_first_difference<T: PartialOrd>(a: Seq<T>, b: Seq<T>, k: int)
    requires
        0 <= k < a.len(),
        k < b.len(),
        forall|i: int|
            0 <= i < k ==> #[trigger] a[i].partial_cmp_spec(&b[i]) == Some(
                core::cmp::Ordering::Equal,
            ),
        a[k].partial_cmp_spec(&b[k]) != Some(core::cmp::Ordering::Equal),
    ensures
        lexicographic(a, b) == a[k].partial_cmp_spec(&b[k]),
    decreases k,
{
    if k > 0 {
        let a1 = a.drop_first();
        let b1 = b.drop_first();
        assert(a[0].partial_cmp_spec(&b[0]) == Some(core::cmp::Ordering::Equal));
        assert forall|i: int| 0 <= i < k - 1 implies #[trigger] a1[i].partial_cmp_spec(&b1[i])
            == Some(core::cmp::Ordering::Equal) by {
            assert(a[i + 1].partial_cmp_spec(&b[i + 1]) == Some(core::cmp::Ordering::Equal));
        }
        lexicographic_first_difference(a1, b1, k - 1);
    }
}

/// A sequence whose elements are equal to those that another begins with is
/// equal to the other where the two are of one length, and comes before it
/// where it is shorter.
pub proof fn lexicographic_prefix<T: PartialOrd>(a: Seq<T>, b: Seq<T>)
    requires
        a.len() <= b.len(),
        forall|i: int|
            0 <= i < a.len() ==> #[trigger] a[i].partial_cmp_spec(&b[i]) == Some(
                core::cmp::Ordering::Equal,
            ),
    ensures
        a.len() == b.len() ==> lexicographic(a, b) == Some(core::cmp::Ordering::Equal),
        a.len() < b.len() ==> lexicographic(a, b) == Some(core::cmp::Ordering::Less),
    decreases a.len(),
{
    if a.len() > 0 {
        let a1 = a.drop_first();
        let b1 = b.drop_first();
        assert(a[0].partial_cmp_spec(&b[0]) == Some(core::cmp::Ordering::Equal));
        assert forall|i: int| 0 <= i < a1.len() implies #[trigger] a1[i].partial_cmp_spec(&b1[i])
            == Some(core::cmp::Ordering::Equal) by {
            assert(a[i + 1].partial_cmp_spec(&b[i + 1]) == Some(core::cmp::Ordering::Equal));
        }
        lexicographic_prefix(a1, b1);
    }
}

/// Where two elements are `==` exactly when they compare as equal, two
/// sequences are `==` element by element exactly when they compare as equal.
pub proof fn lexicographic_equal_is_pointwise_eq<T: PartialOrd>(a: Seq<T>, b: Seq<T>)
    requires
        forall|x: T, y: T|
            x.eq_spec(&y) <==> #[trigger] x.partial_cmp_spec(&y) == Some(
                core::cmp::Ordering::Equal,
            ),
    ensures
        pointwise_eq(a, b) <==> lexicographic(a, b) == Some(core::cmp::Ordering::Equal),
    decreases a.len(),
{
    if a.len() > 0 && b.len() > 0 {
        let a1 = a.drop_first();
        let b1 = b.drop_first();
        lexicographic_equal_is_pointwise_eq(a1, b1);
        if pointwise_eq(a, b) {
            assert(a[0].eq_spec(&b[0]));
            assert forall|i: int| #![auto] 0 <= i < a1.len() implies a1[i].eq_spec(&b1[i]) by {
                assert(a[i + 1].eq_spec(&b[i + 1]));
            }
        }
        if lexicographic(a, b) == Some(core::cmp::Ordering::Equal) {
            assert(pointwise_eq(a1, b1));
            assert forall|i: int| #![auto] 0 <= i < a.len() implies a[i].eq_spec(&b[i]) by {
                if i > 0 {
                    assert(a1[i - 1].eq_spec(&b1[i - 1]));
                }
            }
        }
    }
}

} // verus!
