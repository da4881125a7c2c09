use anyrust::{Any, Array, Dict, Null};

fn ints(xs: &[i32]) -> Any {
    Any::from(xs.iter().map(|x| Any::from(*x)).collect::<Vec<Any>>())
}

#[test]
fn lib_test_push() {
    let mut a = Array::new();
    assert_eq!(a.length(), 0);

    a.push(Any::new(1));
    assert_eq!(a.length(), 1);
    assert!(a.0[0] == Any::from(1));
}

#[test]
fn test_push() {
    let mut a = Array::new();
    assert_eq!(a.length(), 0);

    a.push(Any::new(1));
    assert_eq!(a.length(), 1);
    assert!(a.0[0] == Any::from(1));
}

#[test]
fn lib_test_pop() {
    let mut a = Array::new();
    a.push(Any::new(1));
    a.push(Any::new(2));
    a.push(Any::new(3));

    assert_eq!(a.length(), 3);

    let value = a.pop().unwrap();
    assert!(value == Any::from(3));
    assert_eq!(a.length(), 2);
}

#[test]
fn test_pop() {
    let mut a = Array::new();
    a.push(Any::new(1));
    a.push(Any::new(2));
    a.push(Any::new(3));

    assert_eq!(a.length(), 3);

    let value = a.pop().unwrap();
    assert!(value == Any::from(3));
    assert_eq!(a.length(), 2);
}

#[test]
fn lib_test_shift() {
    let mut a = Array::new();
    a.push(Any::new(1));
    a.push(Any::new(2));
    a.push(Any::new(3));

    assert_eq!(a.length(), 3);

    let value = a.shift().unwrap();
    assert!(value == Any::from(1));
    assert_eq!(a.length(), 2);
}

#[test]
fn test_shift() {
    let mut a = Array::new();
    a.push(Any::new(1));
    a.push(Any::new(2));
    a.push(Any::new(3));

    assert_eq!(a.length(), 3);

    let value = a.shift().unwrap();
    assert!(value == Any::from(1));
    assert_eq!(a.length(), 2);
}

#[test]
fn lib_test_unshift() {
    let mut a = Array::new();
    assert_eq!(a.length(), 0);

    a.unshift(Any::new(1));
    assert_eq!(a.length(), 1);
    assert!(a.0[0] == Any::from(1));

    a.unshift(Any::new(2));
    assert_eq!(a.length(), 2);
    assert!(a.0[0] == Any::from(2));
}

#[test]
fn test_unshift() {
    let mut a = Array::new();
    assert_eq!(a.length(), 0);

    a.unshift(Any::new(1));
    assert_eq!(a.length(), 1);
    assert!(a.0[0] == Any::from(1));

    a.unshift(Any::new(2));
    assert_eq!(a.length(), 2);
    assert!(a.0[0] == Any::from(2));
}

#[test]
fn test_length() {
    let mut a = Array::new();
    assert_eq!(a.length(), 0);

    a.push(Any::new(1));
    assert_eq!(a.length(), 1);

    a.push(Any::new(2));
    assert_eq!(a.length(), 2);

    a.push(Any::new(3));
    assert_eq!(a.length(), 3);
}

#[test]
fn lib_test_length() {
    let mut m = Dict::new();
    assert_eq!(m.length(), 0);

    m.set(Any::new("key"), Any::new("value"));
    assert_eq!(m.length(), 1);

    m.set(Any::new("key2"), Any::new("value2"));
    assert_eq!(m.length(), 2);
}

#[test]
fn test_is_empty() {
    let mut a = Array::new();
    assert!(a.is_empty());

    a.push(Any::new(1));
    assert!(!a.is_empty());
}

#[test]
fn lib_test_is_empty() {
    let mut m = Dict::new();
    assert!(m.is_empty());

    m.set(Any::new("key"), Any::new("value"));
    assert!(!m.is_empty());
}

#[test]
fn lib_test_reverse() {
    let mut a = Array::new();
    a.push(Any::new(1));
    a.push(Any::new(2));
    a.push(Any::new(3));

    assert_eq!(a.length(), 3);
    assert!(a.0[0] == Any::from(1));
    assert!(a.0[1] == Any::from(2));
    assert!(a.0[2] == Any::from(3));

    a.reverse();

    assert_eq!(a.length(), 3);
    assert!(a.0[0] == Any::from(3));
    assert!(a.0[1] == Any::from(2));
    assert!(a.0[2] == Any::from(1));
}

#[test]
fn test_reverse() {
    let mut a = Array::new();
    a.push(Any::new(1));
    a.push(Any::new(2));
    a.push(Any::new(3));

    assert_eq!(a.length(), 3);
    assert!(a.0[0] == Any::from(1));
    assert!(a.0[1] == Any::from(2));
    assert!(a.0[2] == Any::from(3));

    a.reverse();

    assert_eq!(a.length(), 3);
    assert!(a.0[0] == Any::from(3));
    assert!(a.0[1] == Any::from(2));
    assert!(a.0[2] == Any::from(1));
}

#[test]
fn lib_test_set() {
    let mut m = Dict::new();
    assert_eq!(m.length(), 0);

    m.set(Any::new("key"), Any::new("value"));
    assert_eq!(m.length(), 1);
    assert!(m.get(&Any::new("key")).unwrap() == &Any::new("value"));
}

#[test]
fn test_set() {
    let mut m = Dict::new();
    assert_eq!(m.length(), 0);

    m.set(Any::new("key"), Any::new("value"));
    assert_eq!(m.length(), 1);
    assert!(m.get(&Any::new("key")).unwrap() == &Any::new("value"));
}

#[test]
fn lib_test_delete() {
    let mut m = Dict::new();
    m.set(Any::new("key"), Any::new("value"));
    assert_eq!(m.length(), 1);

    let value = m.delete(&Any::new("key")).unwrap();
    assert!(value == Any::new("value"));
    assert_eq!(m.length(), 0);
}

#[test]
fn test_delete() {
    let mut m = Dict::new();
    m.set(Any::new("key"), Any::new("value"));
    assert_eq!(m.length(), 1);

    let value = m.delete(&Any::new("key")).unwrap();
    assert!(value == Any::new("value"));
    assert_eq!(m.length(), 0);
}

#[test]
fn lib_test_get() {
    let mut m = Dict::new();
    m.set(Any::new("key"), Any::new("value"));

    let value = m.get(&Any::new("key")).unwrap();
    assert!(value == &Any::new("value"));
}

#[test]
fn test_get() {
    let mut m = Dict::new();
    m.set(Any::new("key"), Any::new("value"));

    let value = m.get(&Any::new("key")).unwrap();
    assert!(value == &Any::new("value"));
}

#[test]
fn lib_test_get_mut() {
    let mut m = Dict::new();
    m.set(Any::new("key"), Any::new("value"));

    let value = m.get_mut(&Any::new("key")).unwrap();
    assert!(value == &Any::new("value"));
}

#[test]
fn test_get_mut() {
    let mut m = Dict::new();
    m.set(Any::new("key"), Any::new("value"));

    let value = m.get_mut(&Any::new("key")).unwrap();
    assert!(value == &Any::new("value"));
}

#[test]
fn lib_test_array_indexer() {
    let a = ints(&[1, 2, 3]);
    assert!(a.index(&Any::from(0)) == Any::new(1));
    assert!(a.index(&Any::from(1)) == Any::new(2));
    assert!(a.index(&Any::from(2)) == Any::new(3));
    assert!(a.index(&Any::from(3)) == Any::new(Null));
}

#[test]
fn test_array_indexer() {
    let a = ints(&[1, 2, 3]);
    assert!(a.index(&Any::from(0)) == Any::new(1));
    assert!(a.index(&Any::from(1)) == Any::new(2));
    assert!(a.index(&Any::from(2)) == Any::new(3));
    assert!(a.index(&Any::from(3)) == Any::new(Null));
}

#[test]
fn lib_test_map_indexer() {
    let mut a = Any::from(Dict::new());
    a.index_set(&Any::from(1), Any::new(1));
    a.index_set(&Any::from(2), Any::new(2));
    a.index_set(&Any::from(3), Any::new(3));
    assert!(a.index(&Any::from(1)) == Any::new(1));
    assert!(a.index(&Any::from(2)) == Any::new(2));
    assert!(a.index(&Any::from(3)) == Any::new(3));
    assert!(a.index(&Any::from(4)) == Any::new(Null));
}
#[test]
fn test_map_indexer() {
    let mut a = Any::from(Dict::new());
    a.index_set(&Any::from(1), Any::new(1));
    a.index_set(&Any::from(2), Any::new(2));
    a.index_set(&Any::from(3), Any::new(3));
    assert!(a.index(&Any::from(1)) == Any::new(1));
    assert!(a.index(&Any::from(2)) == Any::new(2));
    assert!(a.index(&Any::from(3)) == Any::new(3));
    assert!(a.index(&Any::from(4)) == Any::new(Null));
}
