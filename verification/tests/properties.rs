use aliasable::lexical::lexicographic_order;
use aliasable::prelude::{
    AliasableBox, AliasableMut, AliasableString, AliasableVec, UniqueBox, UniqueString, UniqueVec,
};
use core::cmp::Ordering;
use core::hash::{Hash, Hasher};
use core::pin::Pin;

/// The address that a reference points to.
fn address_of<T: ?Sized>(target: &T) -> usize {
    core::ptr::from_ref(target).addr()
}

#[derive(Default, PartialEq)]
struct ByteHasher(Vec<u8>);

impl Hasher for ByteHasher {
    fn finish(&self) -> u64 {
        0
    }
    fn write(&mut self, bytes: &[u8]) {
        self.0.extend_from_slice(bytes);
    }
}

fn hashed(value: impl Hash) -> Vec<u8> {
    let mut hasher = ByteHasher::default();
    value.hash(&mut hasher);
    hasher.0
}

#[test]
fn vec_round_trip_keeps_the_buffer() {
    let mut unique: UniqueVec<u32> = UniqueVec::with_capacity(16);
    unique.extend_from_slice(&[1, 2, 3]);
    let address = address_of::<[u32]>(&unique);
    let capacity = unique.capacity();

    let aliasable = AliasableVec::from_unique(unique);
    assert_eq!(aliasable.as_ptr(), address);
    assert_eq!(aliasable.len(), 3);
    assert_eq!(aliasable.capacity(), capacity);
    assert_eq!(&*aliasable, &[1, 2, 3]);

    let back = AliasableVec::into_unique(aliasable);
    assert_eq!(address_of::<[u32]>(&back), address);
    assert_eq!(back.len(), 3);
    assert_eq!(back.capacity(), capacity);
    assert_eq!(back, vec![1, 2, 3]);
}

#[test]
fn vec_round_trip_of_an_empty_vector() {
    let unique: UniqueVec<u64> = UniqueVec::new();
    let aliasable = AliasableVec::from_unique(unique);
    assert_eq!(aliasable.len(), 0);
    assert_eq!(aliasable.capacity(), 0);
    assert_ne!(aliasable.as_ptr(), 0);
    let back = AliasableVec::into_unique(aliasable);
    assert!(back.is_empty());
    assert_eq!(back.capacity(), 0);
}

#[test]
fn vec_length_stays_within_capacity() {
    let mut unique: UniqueVec<u8> = UniqueVec::with_capacity(3);
    unique.push(1);
    let aliasable = AliasableVec::from_unique(unique);
    assert_eq!(aliasable.len(), 1);
    assert!(aliasable.capacity() >= 3);
    assert!(aliasable.len() <= aliasable.capacity());
}

#[test]
fn vec_address_is_that_of_the_elements() {
    let mut aliasable = AliasableVec::from_unique(vec![7u16, 8, 9]);
    assert_eq!(aliasable.as_ptr(), address_of::<[u16]>(&*aliasable));
    assert_eq!(aliasable.as_mut_ptr(), aliasable.as_ptr());
    assert_eq!(aliasable.as_mut_ptr(), address_of::<[u16]>(aliasable.as_slice()));
}

#[test]
fn vec_writes_go_to_the_buffer() {
    let mut aliasable = AliasableVec::from_unique(vec![1, 2, 3]);
    let address = aliasable.as_ptr();
    let capacity = aliasable.capacity();
    aliasable[1] = 20;
    aliasable.as_mut_slice()[2] = 30;
    aliasable.as_mut()[0] = 10;
    assert_eq!(&*aliasable, &[10, 20, 30]);
    assert_eq!(aliasable.len(), 3);
    assert_eq!(aliasable.as_ptr(), address);
    assert_eq!(aliasable.capacity(), capacity);
    assert_eq!(AliasableVec::into_unique(aliasable), vec![10, 20, 30]);
}

#[test]
fn vec_from_and_into() {
    let aliasable: AliasableVec<i32> = vec![4, 5].into();
    assert_eq!(&*aliasable, &[4, 5]);
    let unique: UniqueVec<i32> = aliasable.into();
    assert_eq!(unique, vec![4, 5]);
}

#[test]
fn box_round_trip_keeps_the_allocation() {
    let unique = UniqueBox::new(77u64);
    let address = address_of::<u64>(&unique);
    let aliasable = AliasableBox::from_unique(unique);
    assert_eq!(address_of::<u64>(&aliasable), address);
    assert_eq!(*aliasable, 77);
    let back = AliasableBox::into_unique(aliasable);
    assert_eq!(address_of::<u64>(&back), address);
    assert_eq!(*back, 77);
}

#[test]
fn box_of_a_slice() {
    let unique: UniqueBox<[u8]> = vec![1u8, 2, 3].into_boxed_slice();
    let mut aliasable = AliasableBox::from_unique(unique);
    assert_eq!(&*aliasable, &[1, 2, 3]);
    aliasable[0] = 9;
    let back = AliasableBox::into_unique(aliasable);
    assert_eq!(&*back, &[9, 2, 3]);
}

#[test]
fn box_writes_go_to_the_allocation() {
    let mut aliasable = AliasableBox::from_unique(UniqueBox::new(1));
    *aliasable = 2;
    assert_eq!(*aliasable, 2);
    *aliasable.as_mut() = 3;
    assert_eq!(*aliasable.as_ref(), 3);
    assert_eq!(*AliasableBox::into_unique(aliasable), 3);
}

#[test]
fn box_from() {
    let aliasable: AliasableBox<str> = AliasableBox::from(UniqueBox::from("text"));
    assert_eq!(&*aliasable, "text");
}

#[test]
fn box_clone_from_keeps_the_allocation() {
    let mut boxed = AliasableBox::from_unique(UniqueBox::new(String::from("first")));
    let address = address_of::<String>(&boxed);
    let source = AliasableBox::from_unique(UniqueBox::new(String::from("second")));
    boxed.clone_from(&source);
    assert_eq!(&**boxed, "second");
    assert_eq!(&**source, "second");
    assert_eq!(address_of::<String>(&boxed), address);
    Clone::clone_from(&mut boxed, &AliasableBox::from_unique(UniqueBox::new(String::from("third"))));
    assert_eq!(&**boxed, "third");
}

#[test]
fn box_clone_is_another_allocation() {
    let boxed = AliasableBox::from_unique(UniqueBox::new(5u8));
    let copy = boxed.clone();
    assert_eq!(copy, boxed);
    assert_ne!(address_of::<u8>(&copy), address_of::<u8>(&boxed));
}

#[test]
fn mut_round_trip_keeps_the_place() {
    let mut data = 10u32;
    let address = address_of::<u32>(&data);
    let mut aliasable = AliasableMut::from_unique(&mut data);
    assert_eq!(address_of::<u32>(&aliasable), address);
    assert_eq!(*aliasable, 10);
    *aliasable = 11;
    let unique = AliasableMut::into_unique(aliasable);
    assert_eq!(address_of::<u32>(unique), address);
    assert_eq!(*unique, 11);
    *unique = 12;
    assert_eq!(data, 12);
}

#[test]
fn mut_over_a_slice() {
    let mut data = [1u8, 2, 3];
    let mut aliasable = AliasableMut::from_unique(&mut data[..]);
    aliasable[2] = 7;
    assert_eq!(&*aliasable, &[1, 2, 7]);
    aliasable.as_mut()[0] = 5;
    assert_eq!(aliasable.as_ref(), &[5, 2, 7]);
    assert_eq!(data, [5, 2, 7]);
}

#[test]
fn mut_from() {
    let mut data = 3;
    let aliasable = AliasableMut::from(&mut data);
    assert_eq!(*aliasable, 3);
}

#[test]
fn string_round_trip_keeps_the_buffer() {
    let mut unique = UniqueString::with_capacity(32);
    unique.push_str("héllo wörld ✓");
    let address = address_of::<str>(&unique);
    let capacity = unique.capacity();
    let aliasable = AliasableString::from_unique(unique);
    assert_eq!(&*aliasable, "héllo wörld ✓");
    assert_eq!(address_of::<str>(&aliasable), address);
    let back = AliasableString::into_unique(aliasable);
    assert_eq!(back, "héllo wörld ✓");
    assert_eq!(address_of::<str>(&back), address);
    assert_eq!(back.capacity(), capacity);
}

#[test]
fn string_bytes_are_the_encoding() {
    let aliasable = AliasableString::from_unique(UniqueString::from("aé✓"));
    let bytes = aliasable.into_bytes();
    assert_eq!(&*bytes, &[0x61, 0xC3, 0xA9, 0xE2, 0x9C, 0x93]);
    assert_eq!(bytes.len(), 6);
}

#[test]
fn string_writes_go_to_the_buffer() {
    let mut aliasable = AliasableString::from_unique(UniqueString::from("hello é"));
    aliasable.make_ascii_uppercase();
    assert_eq!(&*aliasable, "HELLO é");
    aliasable.as_mut_str().make_ascii_lowercase();
    assert_eq!(aliasable.as_str(), "hello é");
    aliasable.as_mut().make_ascii_uppercase();
    assert_eq!(aliasable.as_ref(), "HELLO é");
    assert_eq!(AliasableString::into_unique(aliasable), "HELLO é");
}

#[test]
fn string_from_and_into() {
    let aliasable: AliasableString = UniqueString::from("into").into();
    assert_eq!(&*aliasable, "into");
    let unique: UniqueString = aliasable.into();
    assert_eq!(unique, "into");
}

#[test]
fn string_clone_is_another_buffer() {
    let text = AliasableString::from_unique(UniqueString::from("copy me"));
    let copy = text.clone();
    assert_eq!(copy, text);
    assert_eq!(&*copy, "copy me");
    assert_ne!(address_of::<str>(&copy), address_of::<str>(&text));
}

#[test]
fn string_clone_from_shorter_and_longer() {
    let mut text = AliasableString::from_unique(UniqueString::from("middle"));
    text.clone_from(&AliasableString::from_unique(UniqueString::from("a much longer text ✓")));
    assert_eq!(&*text, "a much longer text ✓");
    text.clone_from(&AliasableString::from_unique(UniqueString::from("é")));
    assert_eq!(&*text, "é");
    text.clone_from(&AliasableString::default());
    assert_eq!(&*text, "");
    Clone::clone_from(&mut text, &AliasableString::from_unique(UniqueString::from("again")));
    assert_eq!(&*text, "again");
}

#[test]
fn string_order_is_that_of_the_text() {
    let a = AliasableString::from_unique(UniqueString::from("abc"));
    let b = AliasableString::from_unique(UniqueString::from("abcd"));
    let c = AliasableString::from_unique(UniqueString::from("abd"));
    let e = AliasableString::from_unique(UniqueString::from("é"));
    let z = AliasableString::from_unique(UniqueString::from("z"));
    assert!(a < b);
    assert!(b < c);
    assert!(a < c);
    assert!(z < e);
    assert_eq!(a.partial_cmp(&b), Some(Ordering::Less));
    assert_eq!(c.partial_cmp(&b), Some(Ordering::Greater));
    assert_eq!(a.partial_cmp(&a), Some(Ordering::Equal));
    assert_eq!(e.cmp(&z), "é".cmp("z"));
    assert_eq!(a.cmp(&b), Ordering::Less);
    assert!(a == a);
    assert!(a != b);
}

#[test]
fn vec_clone_is_another_buffer() {
    let v = AliasableVec::from_unique(vec![1, 2, 3]);
    let copy = v.clone();
    assert_eq!(copy, v);
    assert_eq!(copy.len(), 3);
    assert!(copy.len() <= copy.capacity());
    assert_ne!(copy.as_ptr(), v.as_ptr());
}

#[test]
fn vec_clone_from_a_shorter_source_keeps_the_buffer() {
    let mut unique = UniqueVec::with_capacity(8);
    unique.extend_from_slice(&[1, 2, 3, 4, 5]);
    let mut v = AliasableVec::from_unique(unique);
    let address = v.as_ptr();
    let capacity = v.capacity();

    v.clone_from(&AliasableVec::from_unique(vec![9, 8]));
    assert_eq!(&*v, &[9, 8]);
    assert_eq!(v.len(), 2);
    assert_eq!(v.as_ptr(), address);
    assert_eq!(v.capacity(), capacity);
}

#[test]
fn vec_clone_from_a_longer_source_within_capacity_keeps_the_buffer() {
    let mut unique = UniqueVec::with_capacity(8);
    unique.extend_from_slice(&[1, 2]);
    let mut v = AliasableVec::from_unique(unique);
    let address = v.as_ptr();

    v.clone_from(&AliasableVec::from_unique(vec![9, 8, 7, 6, 5, 4, 3, 2]));
    assert_eq!(&*v, &[9, 8, 7, 6, 5, 4, 3, 2]);
    assert_eq!(v.len(), 8);
    assert_eq!(v.capacity(), 8);
    assert_eq!(v.as_ptr(), address);
}

#[test]
fn vec_clone_from_a_longer_source_grows_the_buffer() {
    let mut v = AliasableVec::from_unique(vec![String::from("a")]);
    let source = AliasableVec::from_unique(vec![
        String::from("x"),
        String::from("y"),
        String::from("z"),
    ]);
    v.clone_from(&source);
    assert_eq!(v, source);
    assert_eq!(v.len(), 3);
    assert!(v.capacity() >= 3);
    assert_eq!(v.as_ptr(), address_of::<[String]>(&*v));
    Clone::clone_from(&mut v, &AliasableVec::from_unique(vec![String::from("w")]));
    assert_eq!(&*v, &[String::from("w")]);
    assert!(v.len() <= v.capacity());
}

#[test]
fn vec_order_is_lexicographic() {
    let empty = AliasableVec::from_unique(UniqueVec::<i32>::new());
    let a = AliasableVec::from_unique(vec![1, 2]);
    let b = AliasableVec::from_unique(vec![1, 2, 3]);
    let c = AliasableVec::from_unique(vec![1, 3]);
    assert!(empty < a);
    assert!(a < b);
    assert!(b < c);
    assert!(c > a);
    assert!(a <= a);
    assert!(a >= a);
    assert_eq!(empty.partial_cmp(&empty), Some(Ordering::Equal));
    assert_eq!(a.partial_cmp(&b), Some(Ordering::Less));
    assert_eq!(c.partial_cmp(&b), Some(Ordering::Greater));
    assert_eq!(b.cmp(&c), Ordering::Less);
    assert_eq!(b.cmp(&a), Ordering::Greater);
    assert_eq!(b.cmp(&b), Ordering::Equal);
}

#[test]
fn vec_order_of_values_without_an_order() {
    let a = AliasableVec::from_unique(vec![1.0, f64::NAN]);
    let b = AliasableVec::from_unique(vec![1.0, 2.0]);
    let c = AliasableVec::from_unique(vec![0.5, f64::NAN]);
    assert_eq!(a.partial_cmp(&b), None);
    assert_eq!(b.partial_cmp(&a), None);
    assert_eq!(c.partial_cmp(&b), Some(Ordering::Less));
    assert!(!(a < b));
    assert!(!(a >= b));
    assert!(a != a);
}

#[test]
fn lexicographic_order_of_slices() {
    assert_eq!(lexicographic_order::<u8>(&[], &[]), Some(Ordering::Equal));
    assert_eq!(lexicographic_order(&[], &[0u8]), Some(Ordering::Less));
    assert_eq!(lexicographic_order(&[0u8], &[]), Some(Ordering::Greater));
    assert_eq!(lexicographic_order(&[1, 2, 3], &[1, 2, 4]), Some(Ordering::Less));
    assert_eq!(lexicographic_order(&[1, 2, 4], &[1, 2, 3]), Some(Ordering::Greater));
    assert_eq!(lexicographic_order(&[1, 2, 3], &[1, 2, 3]), Some(Ordering::Equal));
    assert_eq!(lexicographic_order(&[1, 2], &[1, 2, 3]), Some(Ordering::Less));
    assert_eq!(lexicographic_order(&[2], &[1, 2, 3]), Some(Ordering::Greater));
    assert_eq!(lexicographic_order(&[1.0, f32::NAN], &[1.0, 0.0]), None);
    assert_eq!(lexicographic_order(&[0.0, f32::NAN], &[1.0, 0.0]), Some(Ordering::Less));
    assert_eq!(
        lexicographic_order(&[1, 5, 9], &[1, 6]),
        [1, 5, 9].as_slice().partial_cmp([1, 6].as_slice())
    );
}

#[test]
fn vec_equality_across_element_types() {
    let l = <AliasableVec<&str>>::from_unique(vec!["x", "y"]);
    let same = <AliasableVec<String>>::from_unique(vec!["x".into(), "y".into()]);
    let other = <AliasableVec<String>>::from_unique(vec!["x".into(), "z".into()]);
    let shorter = <AliasableVec<String>>::from_unique(vec!["x".into()]);
    assert!(l == same);
    assert!(l != other);
    assert!(l != shorter);
    assert!(same == l);
}

#[test]
fn hash_is_that_of_the_content() {
    assert_eq!(
        hashed(AliasableVec::from_unique(vec!["a", "bc"])),
        hashed(vec!["a", "bc"])
    );
    assert_eq!(hashed(AliasableVec::from_unique(UniqueVec::<u8>::new())), hashed([0u8; 0]));
    assert_eq!(hashed(AliasableBox::from_unique(UniqueBox::new("text"))), hashed("text"));
    assert_eq!(hashed(AliasableMut::from_unique(&mut (1u8, 2u16))), hashed((1u8, 2u16)));
    assert_eq!(
        hashed(AliasableString::from_unique(UniqueString::from("é✓"))),
        hashed("é✓")
    );
    assert_ne!(
        hashed(AliasableString::from_unique(UniqueString::from("ab"))),
        hashed(vec![b'a', b'b'])
    );
}

#[test]
fn debug_is_that_of_the_content() {
    assert_eq!(format!("{:?}", AliasableVec::from_unique(vec!["a", "b"])), "[\"a\", \"b\"]");
    assert_eq!(format!("{:?}", AliasableBox::from_unique(UniqueBox::new(Some(1)))), "Some(1)");
    assert_eq!(format!("{:?}", AliasableMut::from_unique(&mut [1, 2])), "[1, 2]");
    assert_eq!(
        format!("{:?}", AliasableString::from_unique(UniqueString::from("a\"b"))),
        "\"a\\\"b\""
    );
    assert_eq!(format!("{:#?}", AliasableBox::from_unique(UniqueBox::new((1,)))), "(\n    1,\n)");
}

#[test]
fn defaults_are_the_defaults_of_the_unique_owners() {
    let v = <AliasableVec<u8>>::default();
    assert_eq!(v.len(), 0);
    assert_eq!(v, AliasableVec::from_unique(UniqueVec::default()));
    let s = AliasableString::default();
    assert_eq!(&*s, "");
    assert_eq!(AliasableString::into_unique(s), UniqueString::default());
    let b = <AliasableBox<(u8, bool)>>::default();
    assert_eq!(*b, (0, false));
    assert_eq!(b, AliasableBox::from_unique(UniqueBox::default()));
}

#[test]
fn pinned_round_trips_keep_the_address() {
    let unique = Pin::new(vec![1u8, 2, 3]);
    let address = address_of::<[u8]>(&unique);
    let aliasable = AliasableVec::from_unique_pin(unique);
    assert_eq!(address_of::<[u8]>(&aliasable), address);
    let back = AliasableVec::into_unique_pin(aliasable);
    assert_eq!(address_of::<[u8]>(&back), address);
    assert_eq!(&*back, &[1, 2, 3]);

    let unique = UniqueBox::pin(5u64);
    let address = address_of::<u64>(&unique);
    let aliasable = AliasableBox::from_unique_pin(unique);
    assert_eq!(address_of::<u64>(&aliasable), address);
    let back = AliasableBox::into_unique_pin(aliasable);
    assert_eq!(address_of::<u64>(&back), address);
    assert_eq!(*back, 5);

    let unique = Pin::new(UniqueString::from("pinned"));
    let address = address_of::<str>(&unique);
    let aliasable = AliasableString::from_unique_pin(unique);
    assert_eq!(address_of::<str>(&aliasable), address);
    let back = AliasableString::into_unique_pin(aliasable);
    assert_eq!(address_of::<str>(&back), address);
    assert_eq!(&*back, "pinned");

    let mut data = 9i8;
    let address = address_of::<i8>(&data);
    let aliasable = AliasableMut::from_unique_pin(Pin::new(&mut data));
    assert_eq!(address_of::<i8>(&aliasable), address);
    let back = AliasableMut::into_unique_pin(aliasable);
    assert_eq!(address_of::<i8>(&back), address);
    assert_eq!(*back, 9);
}

#[test]
fn vec_cmp_is_by_element_and_not_by_length() {
    let a = AliasableString::from_unique(UniqueString::from("abcdef")).into_bytes();
    let b = AliasableString::from_unique(UniqueString::from("abdef")).into_bytes();
    assert_eq!(a.cmp(&b), Ordering::Less);
    assert_eq!(b.cmp(&a), Ordering::Greater);
    assert_eq!(a.cmp(&a), Ordering::Equal);
    assert_eq!(a.partial_cmp(&b), Some(a.cmp(&b)));
    let x = AliasableVec::from_unique(vec![1, 2, 3]);
    let y = AliasableVec::from_unique(vec![1, 2, 4]);
    assert_eq!(x.cmp(&y), Ordering::Less);
    assert_eq!(y.cmp(&x), Ordering::Greater);
    assert_eq!(y.cmp(&y), Ordering::Equal);
}

#[test]
fn vec_parts_stay_those_of_the_vector_after_writes() {
    let mut unique: UniqueVec<u32> = UniqueVec::with_capacity(5);
    unique.extend_from_slice(&[1, 2]);
    let mut v = AliasableVec::from_unique(unique);
    v.as_mut_slice()[1] = 9;
    v[0] = 8;
    let address = v.as_ptr();
    let capacity = v.capacity();
    let back = AliasableVec::into_unique(v);
    assert_eq!(address_of::<[u32]>(&back), address);
    assert_eq!(back.capacity(), capacity);
    assert_eq!(back, vec![8, 9]);
}

#[test]
fn text_is_hashed_as_text_with_no_length_before_it() {
    let mut expected = b"some data".to_vec();
    expected.push(0xff);
    assert_eq!(
        hashed(AliasableString::from_unique(UniqueString::from("some data"))),
        expected
    );
    assert_eq!(hashed(AliasableMut::from_unique(&mut 389i32)), 389i32.to_ne_bytes().to_vec());
    assert_eq!(hashed(AliasableBox::from_unique(UniqueBox::new(5i32))), 5i32.to_ne_bytes().to_vec());
}

#[test]
fn vec_clone_from_does_not_share_the_source_buffer() {
    let source = AliasableVec::from_unique(vec![String::from("a"), String::from("b")]);
    let mut shorter = AliasableVec::from_unique(vec![String::from("x")]);
    shorter.clone_from(&source);
    assert_eq!(shorter, source);
    assert_ne!(shorter.as_ptr(), source.as_ptr());
    let mut longer = AliasableVec::from_unique(vec![String::new(), String::new(), String::new()]);
    longer.clone_from(&source);
    assert_eq!(longer, source);
    assert_ne!(longer.as_ptr(), source.as_ptr());
    longer[0].push('!');
    assert_eq!(&*source[0], "a");
    assert_eq!(source.len(), 2);
}
