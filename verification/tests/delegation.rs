use std::cmp::Ordering;
use std::collections::hash_map::DefaultHasher;
use std::hash::Hash;
use std::hash::Hasher;
use std::sync::Arc;

use supercow::Supercow;

fn hash_of<T: Hash + ?Sized>(t: &T) -> u64 {
    let mut s = DefaultHasher::new();
    t.hash(&mut s);
    s.finish()
}

#[test]
fn equal_containers_hash_identically() {
    let x = 7u32;
    let a: Supercow<u32> = Supercow::borrowed(&x);
    let b: Supercow<u32> = Supercow::borrowed(&x);
    assert!(a == b);
    assert_eq!(hash_of(&a), hash_of(&b));

    let c: Supercow<u32> = Supercow::owned(7u32);
    let d: Supercow<u32> = Supercow::shared(Arc::new(7u32));
    assert!(a == c);
    assert!(a == d);
    assert_eq!(hash_of(&a), hash_of(&c));
    assert_eq!(hash_of(&a), hash_of(&d));
    assert_eq!(hash_of(&a), hash_of(&x));
}

#[test]
fn equality_follows_target_not_state() {
    let x = 3u32;
    let a: Supercow<u32> = Supercow::borrowed(&x);
    let b: Supercow<u32> = Supercow::owned(3u32);
    let c: Supercow<u32> = Supercow::shared(Arc::new(3u32));
    assert!(a == b);
    assert!(b == c);
    assert!(a == c);

    let other: Supercow<u32> = Supercow::owned(4u32);
    assert!(a != other);
    assert!(c != other);
}

#[test]
fn string_equality_is_by_contents() {
    let a: Supercow<String, str> = Supercow::borrowed("pine");
    let b: Supercow<String, str> = Supercow::owned(String::from("pine"));
    assert!(a == b);
    assert_eq!(hash_of(a.dereference()), hash_of(b.dereference()));

    let c: Supercow<String, str> = Supercow::owned(String::from("oak"));
    assert!(a != c);
}

#[test]
fn string_ordering_is_lexicographic() {
    let a: Supercow<String, str> = Supercow::borrowed("apple");
    let b: Supercow<String, str> = Supercow::owned(String::from("banana"));
    assert!(a < b);
    assert_eq!(a.partial_cmp(&b), Some(Ordering::Less));
    assert_eq!(b.partial_cmp(&a), Some(Ordering::Greater));
    assert_eq!("apple".partial_cmp("banana"), a.partial_cmp(&b));

    let p: Supercow<String, str> = Supercow::borrowed("ab");
    let q: Supercow<String, str> = Supercow::owned(String::from("abc"));
    assert!(p < q);
    assert_eq!(q.partial_cmp(&p), Some(Ordering::Greater));

    let e: Supercow<String, str> = Supercow::borrowed("abc");
    assert_eq!(e.partial_cmp(&q), Some(Ordering::Equal));
}

#[test]
fn ordering_delegates_to_target() {
    let x = 8u32;
    let a: Supercow<u32> = Supercow::owned(3u32);
    let b: Supercow<u32> = Supercow::borrowed(&x);
    assert!(a < b);
    assert!(b > a);
    assert!(a <= b);
    assert_eq!(a.partial_cmp(&b), Some(Ordering::Less));
    assert_eq!(b.partial_cmp(&a), Some(Ordering::Greater));
    assert_eq!(3u32.partial_cmp(&8u32), a.partial_cmp(&b));

    let c: Supercow<u32> = Supercow::shared(Arc::new(3u32));
    assert_eq!(a.partial_cmp(&c), Some(Ordering::Equal));
}
