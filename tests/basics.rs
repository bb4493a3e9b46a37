use smart_pointer::unique::Unique;
use smart_pointer::SmartPointer;
use std::borrow::Borrow;

#[test]
fn it_works() {
    assert_eq!(2 + 2, 4);
}

#[test]
fn unique_new_then_unwrap_gives_value_back() {
    let b: Unique<u32> = SmartPointer::new(41);
    match <Unique<u32> as SmartPointer<u32>>::try_unwrap(b) {
        Ok(v) => assert_eq!(v, 41),
        Err(_) => panic!("a unique handle gives its value up"),
    }
}

#[test]
fn unique_reads_through_deref_and_borrow() {
    let b: Unique<String> = SmartPointer::new(String::from("abc"));
    assert_eq!(b.as_str(), "abc");
    let r: &String = b.borrow();
    assert_eq!(r, "abc");
}

#[test]
fn unique_write_through_deref_mut() {
    let mut h: Unique<u32> = SmartPointer::new(5);
    *h = 7;
    assert_eq!(*h, 7);
    match <Unique<u32> as SmartPointer<u32>>::try_unwrap(h) {
        Ok(v) => assert_eq!(v, 7),
        Err(_) => panic!("a unique handle gives its value up"),
    }
}

#[test]
fn unique_clone_is_a_copy() {
    let mut h1: Unique<u32> = SmartPointer::new(5);
    let h2 = h1.clone();
    *h1 = 9;
    assert_eq!(*h1, 9);
    assert_eq!(*h2, 5);
}
