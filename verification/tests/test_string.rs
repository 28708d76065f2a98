use aliasable::prelude::{AliasableString, AliasableVec, UniqueString};
use core::cmp::Ordering;
use core::fmt::Debug;
use core::hash::{Hash, Hasher};
use core::pin::Pin;

#[allow(clippy::eq_op)]
fn check_ordering<T: PartialEq + Eq + PartialOrd + Ord + Debug>(a: T, b: T) {
    assert_eq!(a, a);
    assert_eq!(b, b);
    assert_ne!(a, b);
    assert_ne!(b, a);

    assert_eq!(a.cmp(&a), Ordering::Equal);
    assert_eq!(b.cmp(&b), Ordering::Equal);
    assert_eq!(a.cmp(&b), Ordering::Less);
    assert_eq!(b.cmp(&a), Ordering::Greater);

    assert_eq!(a.partial_cmp(&a).unwrap(), Ordering::Equal);
    assert_eq!(b.partial_cmp(&b).unwrap(), Ordering::Equal);
    assert_eq!(a.partial_cmp(&b).unwrap(), Ordering::Less);
    assert_eq!(b.partial_cmp(&a).unwrap(), Ordering::Greater);

    assert!(!(a < a));
    assert!(!(b < b));
    assert!(a < b);
    assert!(!(b < a));

    assert!(!(a > a));
    assert!(!(b > b));
    assert!(!(a > b));
    assert!(b > a);

    assert!(a <= a);
    assert!(b <= b);
    assert!(a <= b);
    assert!(!(b <= a));

    assert!(a >= a);
    assert!(b >= b);
    assert!(!(a >= b));
    assert!(b >= a);
}

#[derive(Default, PartialEq)]
struct DummyHasher(Vec<u8>);

impl Hasher for DummyHasher {
    fn finish(&self) -> u64 {
        0
    }
    fn write(&mut self, bytes: &[u8]) {
        self.0.extend_from_slice(bytes);
    }
}

fn hash_of(value: impl Hash) -> Vec<u8> {
    let mut hasher = DummyHasher::default();
    value.hash(&mut hasher);
    hasher.0
}

/// The address that a reference points to.
fn address_of<T: ?Sized>(target: &T) -> usize {
    core::ptr::from_ref(target).addr()
}

#[test]
fn test_string_test_new() {
    let aliasable = AliasableString::from_unique(UniqueString::from("hello"));
    assert_eq!(&*aliasable, "hello");
    let unique = AliasableString::into_unique(aliasable);
    assert_eq!(&*unique, "hello");
}

#[test]
fn test_string_test_new_pin() {
    let aliasable = AliasableString::from_unique_pin(Pin::new(UniqueString::from("hello")));
    assert_eq!(&*aliasable, "hello");
    let unique = AliasableString::into_unique_pin(aliasable);
    assert_eq!(&*unique, "hello");
}

#[test]
fn test_string_test_refs() {
    let mut aliasable = AliasableString::from_unique(UniqueString::from("hello"));
    let ptr = (address_of::<str>(&*aliasable), aliasable.len());
    let as_mut_ptr = (address_of::<str>(aliasable.as_mut()), aliasable.len());
    let as_ref_ptr = (address_of::<str>(aliasable.as_ref()), aliasable.len());
    assert_eq!(ptr, as_mut_ptr);
    assert_eq!(ptr, as_ref_ptr);
}

#[test]
fn test_string_test_debug() {
    let aliasable = AliasableString::from_unique(UniqueString::from("hello"));
    assert_eq!(format!("{:?}", aliasable), "\"hello\"");
}

#[test]
fn test_into_bytes() {
    let aliasable = AliasableString::from_unique(UniqueString::from("hello"));
    assert_eq!(
        AliasableVec::into_unique(aliasable.into_bytes()),
        vec![b'h', b'e', b'l', b'l', b'o']
    );
}

#[test]
fn test_string_test_default() {
    assert_eq!(
        AliasableString::default(),
        AliasableString::from_unique(UniqueString::new())
    );
}

#[test]
#[allow(clippy::redundant_clone)]
fn test_string_test_clone() {
    let mut s = AliasableString::from_unique("hello".into());
    assert_eq!(&*s.clone(), "hello");
    s.clone_from(&AliasableString::from_unique("world".into()));
    assert_eq!(&*s, "world");
}

#[test]
fn test_string_test_cmp() {
    check_ordering(
        AliasableString::from_unique("abcdef".into()),
        AliasableString::from_unique("abdef".into()),
    );
}

#[test]
fn test_string_test_hash() {
    assert_eq!(
        hash_of(AliasableString::from_unique("some data".into())),
        hash_of("some data")
    );
}
