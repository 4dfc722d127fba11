use std::rc::Rc;
use std::sync::Arc;

use supercow::Supercow;

#[test]
fn ref_to_owned() {
    let x = 42u32;
    let a: Supercow<u32> = Supercow::borrowed(&x);
    assert_eq!(x, *a);

    let mut b = a.clone();
    assert_eq!(x, *b);

    *b.to_mut() = 56;
    assert_eq!(42, *a);
    assert_eq!(x, *a);
    assert_eq!(56, *b);
}

#[test]
fn supports_dst() {
    let a: Supercow<String, str> = Supercow::borrowed("hello");
    let b: Supercow<String, str> = Supercow::owned("hello".to_owned());
    assert!(a == b);

    let mut c = a.clone();
    c.to_mut().push_str(" world");
    assert!(a == b);
    assert_eq!(&*c, "hello world");
}

#[test]
fn default_accepts_arc() {
    let x: Supercow<u32> = Supercow::shared(Arc::new(42u32));
    assert_eq!(42, *x);
}

#[test]
fn supports_slices() {
    let data = [1u32, 2, 3];
    let a: Supercow<Vec<u32>, [u32]> = Supercow::borrowed(&data[..]);
    assert_eq!(&*a, &[1u32, 2, 3][..]);

    let mut b = a.clone();
    b.to_mut().push(4);
    assert_eq!(&*a, &[1u32, 2, 3][..]);
    assert_eq!(&*b, &[1u32, 2, 3, 4][..]);

    let v: Vec<u32> = Supercow::into_inner(b);
    assert_eq!(v, vec![1u32, 2, 3, 4]);
}

#[test]
fn into_inner_matches_dereference() {
    let x = 9u32;
    let a: Supercow<u32> = Supercow::borrowed(&x);
    let seen = *a.dereference();
    assert_eq!(seen, Supercow::into_inner(a));

    let b: Supercow<String, str> = Supercow::borrowed("abc");
    let seen: String = b.dereference().to_owned();
    assert_eq!(seen, Supercow::into_inner(b));

    let c: Supercow<u32> = Supercow::shared(Arc::new(5u32));
    assert_eq!(5, Supercow::into_inner(c));
}

#[test]
fn take_ownership_unbinds_lifetime() {
    let v: Supercow<String, str> = Supercow::owned(String::from("keep"));
    let before: String = v.dereference().to_owned();
    let t: Supercow<'static, String, str> = Supercow::take_ownership(v);
    assert_eq!(&*t, before.as_str());

    let borrowed_text = String::from("moved out");
    let taken: Supercow<'static, String, str> = {
        let b: Supercow<String, str> = Supercow::borrowed(borrowed_text.as_str());
        Supercow::take_ownership(b)
    };
    assert_eq!(&*taken, "moved out");

    let s: Supercow<u32> = Supercow::shared(Arc::new(6u32));
    let t: Supercow<'static, u32> = Supercow::take_ownership(s);
    assert_eq!(6, *t);
}

#[test]
fn from_owned_value() {
    let c: Supercow<u32> = Supercow::from(10u32);
    assert_eq!(10, *c);

    let s: Supercow<String, str> = Supercow::from(String::from("via from"));
    assert_eq!(&*s, "via from");
}

#[test]
fn from_reference_borrows() {
    let v = 21u32;
    let c: Supercow<u32> = Supercow::from(&v);
    assert_eq!(21, *c);

    let text = String::from("lent");
    let s: Supercow<String, str> = Supercow::from(&text);
    assert_eq!(&*s, "lent");
    assert_eq!(text, "lent");
}

#[test]
fn as_ref_delegates_to_target() {
    let c: Supercow<String, str> = Supercow::owned(String::from("key"));
    let r: &str = c.as_ref();
    assert_eq!(r, "key");
}

#[test]
fn empty_string_targets() {
    let a: Supercow<String, str> = Supercow::borrowed("");
    let b: Supercow<String, str> = Supercow::owned(String::new());
    assert!(a == b);
    assert_eq!(Supercow::into_inner(a), String::new());
}

#[test]
fn to_mut_on_owned_mutates_in_place() {
    let mut c: Supercow<String, str> = Supercow::owned(String::from("a"));
    c.to_mut().push_str("b");
    c.to_mut().push_str("c");
    assert_eq!(&*c, "abc");
}

#[test]
fn accepts_rc_backing() {
    let c: Supercow<u32, u32, Rc<u32>> = Supercow::shared(Rc::new(42u32));
    assert_eq!(42, *c);
    let d = c.clone();
    assert_eq!(42, *d);
}

#[test]
fn accepts_boxed_backing() {
    let c: Supercow<u32, u32, Box<Rc<u32>>> = Supercow::shared(Box::new(Rc::new(7u32)));
    assert_eq!(7, *c);
    assert_eq!(7, Supercow::into_inner(c));
}

#[test]
fn borrow_delegates_to_target() {
    let c: Supercow<String, str> = Supercow::owned(String::from("key"));
    let b: &str = std::borrow::Borrow::borrow(&c);
    assert_eq!(b, "key");
}

#[test]
fn cow_promotion_leaves_shared_untouched() {
    let backing = Arc::new(11u32);
    let mut a: Supercow<u32> = Supercow::shared(backing.clone());
    let b = a.clone();

    *a.to_mut() = 12;
    assert_eq!(12, *a);
    assert_eq!(11, *b);
    assert_eq!(11, *backing);
}
