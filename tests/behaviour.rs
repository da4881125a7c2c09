use std::collections::hash_map::DefaultHasher;
use std::hash::{Hash, Hasher};
use std::sync::atomic::{AtomicUsize, Ordering};
use std::sync::Arc;

use anyrust::{
    divides_by_zero, null, Any, Array, Dict, Fault, Function, Kind, Null, Op, Outcome, Pair, Piece,
    Real, ToStr,
};

fn ints(xs: &[i32]) -> Any {
    Any::from(xs.iter().map(|x| Any::from(*x)).collect::<Vec<Any>>())
}

fn double(x: f64) -> Any {
    Any::F64(x.to_bits())
}

fn single(x: f32) -> Any {
    Any::F32(x.to_bits())
}

fn read(r: Real) -> f64 {
    match r {
        Real::Int(i) => i as f64,
        Real::Single(b) => f32::from_bits(b) as f64,
        Real::Double(b) => f64::from_bits(b),
        Real::Text(s) => s.parse().unwrap(),
    }
}

fn format_pieces(pieces: Vec<Piece>) -> String {
    let mut s = String::new();
    for p in pieces {
        match p {
            Piece::Text(t) => s.push_str(&t),
            Piece::Single(b) => s.push_str(&f32::from_bits(b).to_string()),
            Piece::Double(b) => s.push_str(&f64::from_bits(b).to_string()),
        }
    }
    s
}

fn finish(o: Outcome) -> Any {
    match o {
        Outcome::Value(v) => v,
        Outcome::Float(op, a, b) => {
            let (x, y) = (read(a), read(b));
            let r = match op {
                Op::Add => x + y,
                Op::Sub => x - y,
                Op::Mul => x * y,
                Op::Div => x / y,
            };
            double(r)
        }
        Outcome::Text(pieces) => Any::String(format_pieces(pieces)),
        Outcome::Fault(f) => panic!("{:?}", f),
    }
}

fn hash_of(v: &Any) -> u64 {
    let mut h = DefaultHasher::new();
    v.hash(&mut h);
    h.finish()
}

fn string(s: &str) -> Any {
    Any::String(s.to_string())
}

#[test]
fn scenario_integers_add() {
    assert!(finish(Any::from(5_i64).add(Any::from(10_i64))) == Any::from(15_i64));
}

#[test]
fn scenario_strings_concatenate() {
    assert!(finish(Any::new("5").add(Any::new("10"))) == string("510"));
    assert!(finish(string("5").add(string("10"))) == string("510"));
}

#[test]
fn scenario_null_propagates() {
    assert!(finish(Any::from(5_i64).add(Any::new(Null))) == Any::new(Null));
    assert!(finish(Any::new(Null).div(Any::from(0_i64))) == Any::new(Null));
}

#[test]
fn scenario_not_zero_is_true() {
    assert!(Any::from(0_i64).not() == Any::from(true));
    assert!(Any::new(Null).not() == Any::new(Null));
    assert!(string("true").not() == Any::from(false));
    assert!(string("yes").not() == Any::from(true));
}

#[test]
fn scenario_single_floats_widen() {
    let r = Any::from(5_i64);
    assert!(r.is_integer());
    let sum = single(5.0).add(single(10.0));
    match &sum {
        Outcome::Float(Op::Add, Real::Single(_), Real::Single(_)) => {}
        _ => panic!("expected float work"),
    }
    let v = finish(sum);
    assert!(v == double(15.0));
    assert!(v.type_id() == Kind::F64);
}

#[test]
fn scenario_arrays_concatenate() {
    assert!(finish(ints(&[1, 2, 3]).add(ints(&[4, 5]))) == ints(&[1, 2, 3, 4, 5]));
    assert!(finish(ints(&[1]).sub(ints(&[1]))).is_nan());
}

#[test]
fn same_width_arithmetic_is_integer_arithmetic() {
    assert!(finish(Any::from(7_i32).add(Any::from(-3_i32))) == Any::from(4_i64));
    assert!(finish(Any::from(7_i8).sub(Any::from(3_i8))) == Any::from(4_i64));
    assert!(finish(Any::from(7_u16).mul(Any::from(3_u16))) == Any::from(21_i64));
    assert!(finish(Any::from(-7_i64).div(Any::from(2_i64))) == Any::from(-3_i64));
    assert!(finish(Any::from(7_i64).div(Any::from(-2_i64))) == Any::from(-3_i64));
    assert_eq!(finish(Any::from(9_u8).mul(Any::from(9_u8))).to_integer(), 81);
}

#[test]
fn integer_faults_are_reported() {
    assert!(divides_by_zero(&Any::from(1_i64), &Any::from(0_i64)));
    assert!(divides_by_zero(&Any::from(1_u8), &Any::from(false)));
    assert!(!divides_by_zero(&Any::from(1_i64), &Any::from(2_i64)));
    assert!(!divides_by_zero(&double(1.0), &Any::from(0_i64)));
    assert!(!divides_by_zero(&Any::new(Null), &Any::from(0_i64)));
    match Any::from(i64::MAX).add(Any::from(1_i64)) {
        Outcome::Fault(Fault::Overflow) => {}
        _ => panic!("expected overflow"),
    }
    match Any::from(i64::MIN).div(Any::from(-1_i64)) {
        Outcome::Fault(Fault::Overflow) => {}
        _ => panic!("expected overflow"),
    }
}

#[test]
fn mixed_tags_follow_the_ladder() {
    let r = finish(Any::from(2_i32).add(Any::from(3_i64)));
    assert!(r == Any::from(5_i64));
    let r = finish(Any::from(10_u8).sub(Any::from(3_i8)));
    assert!(r == Any::from(7_i64));
    let r = finish(Any::from(10_u8).mul(Any::from(3_i8)));
    assert!(r == Any::from(30_i64));
    let r = finish(Any::from(10_u8).div(Any::from(3_i8)));
    assert!(r == Any::from(3_i64));
    let r = finish(Any::from(true).add(Any::from(2_u32)));
    assert!(r == Any::from(3_i64));
    let r = finish(string("a").add(Any::from(1)));
    assert!(r == string("a1"));
    let r = finish(string("a").add(double(1.5)));
    assert!(r == string("a1.5"));
    assert!(finish(string("a").sub(Any::from(1))).is_nan());
    let r = finish(Any::from(1_i32).add(double(0.5)));
    assert!(r == double(1.5));
    let r = finish(Any::from(5_isize).add(Any::from(true)));
    assert!(r == string("5true"));
}

#[test]
fn same_tag_unsupported_operations_give_nan() {
    assert!(finish(string("a").sub(string("b"))).is_nan());
    assert!(finish(Any::from(true).mul(Any::from(false))).is_nan());
    assert!(finish(Any::from(true).add(Any::from(false))) == Any::from(true));
    assert!(finish(Any::from(Dict::new()).div(Any::from(Dict::new()))).is_nan());
}

#[test]
fn different_widths_are_unequal() {
    let a = Any::from(5_i32);
    let b = Any::from(5_i64);
    assert!(a != b);
    assert_eq!(a.to_integer(), b.to_integer());
    assert!(Any::new("5") != string("5"));
}

#[test]
fn equal_values_hash_alike() {
    let mut m1 = Any::from(Dict::new());
    m1.set(string("a"), Any::from(1));
    m1.set(string("b"), Any::from(2));
    let mut m2 = Any::from(Dict::new());
    m2.set(string("b"), Any::from(2));
    m2.set(string("a"), Any::from(1));
    assert!(m1 == m2);
    assert_eq!(hash_of(&m1), hash_of(&m2));
    assert_eq!(m1.hash_code(), m2.hash_code());

    assert!(double(0.0) == double(-0.0));
    assert_eq!(hash_of(&double(0.0)), hash_of(&double(-0.0)));
    assert!(double(f64::NAN) != double(f64::NAN));
    assert_ne!(Any::from(5_i32).hash_code(), Any::from(5_i64).hash_code());
}

#[test]
fn array_round_trip() {
    let mut a = ints(&[1, 2]);
    a.push(string("x"));
    assert!(a.pop().unwrap() == string("x"));
    assert!(a.length() == Any::from(2_usize));
    a.unshift(string("y"));
    assert!(a.shift().unwrap() == string("y"));
    assert!(a == ints(&[1, 2]));

    let mut n = Any::from(7);
    n.push(Any::from(1));
    assert!(n == Any::from(7));
    assert!(n.pop().is_none());
    assert!(n.shift().is_none());
    assert!(n.reverse() == Any::new(Null));
    let mut e = ints(&[]);
    assert!(e.pop().is_none());
}

#[test]
fn any_reverse_returns_the_reversed_array() {
    let mut a = ints(&[1, 2, 3]);
    let r = a.reverse();
    assert!(r == ints(&[3, 2, 1]));
    assert!(a == ints(&[3, 2, 1]));
}

#[test]
fn map_round_trip() {
    let mut m = Any::from(Dict::new());
    m.set(string("k"), Any::from(1));
    m.set(string("k"), Any::from(2));
    assert!(m.length() == Any::from(1_usize));
    assert!(m.get(string("k")) == Any::from(2));
    assert!(m.delete(string("k")) == Any::from(2));
    assert!(m.get(string("k")) == Any::new(Null));
    assert!(m.delete(string("k")) == Any::new(Null));
    assert!(m.is_empty() == Any::from(true));

    let mut n = Any::from(3);
    n.set(string("k"), Any::from(1));
    assert!(n == Any::from(3));
    assert!(n.get(string("k")) == Any::new(Null));
}

#[test]
fn out_of_range_reads_are_null() {
    let a = ints(&[1, 2, 3]);
    assert!(a.index(&Any::from(3)) == null());
    assert!(a.index(&Any::from(-1)) == null());
    assert!(a.index(&string("1")) == Any::from(2));
    assert!(a.index(&string("one")) == null());
    assert!(a.index(&double(1.9)) == Any::from(2));
    assert!(Any::from(5).index(&Any::from(0)) == null());
}

#[test]
fn index_writes() {
    let mut a = ints(&[1, 2, 3]);
    assert!(a.index_set(&Any::from(1), string("x")));
    assert!(a.index(&Any::from(1)) == string("x"));
    assert!(!a.index_set(&Any::from(3), string("y")));
    assert!(a.length() == Any::from(3_usize));
    let mut n = Any::from(5);
    assert!(!n.index_set(&Any::from(0), Any::from(1)));
    assert!(n == Any::from(5));
}

#[test]
fn renderings() {
    assert_eq!(ints(&[1, 2, 3]).to_str(), "[1, 2, 3]");
    let mut m = Any::from(Dict::new());
    m.set(string("k"), string("v"));
    assert_eq!(m.to_str(), "{k: v}");
    assert_eq!(Any::new(Null).to_str(), "null");
    assert_eq!(Any::from(Function::new(|_a: Any| null(), 0)).to_str(), "function");
    assert_eq!(Any::from(Pair::new(Any::from(1), Any::from(2))).to_str(), "(1, 2)");
    assert_eq!(Any::from(-42_i64).to_str(), "-42");
    assert_eq!(Any::from(i64::MIN).to_str(), "-9223372036854775808");
    assert_eq!(Any::from(u64::MAX).to_str(), "18446744073709551615");
    assert_eq!(Any::from(false).to_str(), "false");
    assert_eq!(ints(&[]).to_str(), "[]");
    let nested = Any::from(vec![ints(&[1]), Any::new("a"), Any::from(true)]);
    assert_eq!(nested.to_str(), "[[1], a, true]");
    let floats = Any::from(vec![double(1.5), single(2.0)]);
    assert_eq!(format_pieces(floats.render()), "[1.5, 2]");
}

#[test]
fn casts() {
    assert_eq!(string("42").to_integer(), 42);
    assert_eq!(string("-7").to_integer(), -7);
    assert_eq!(string("+7").to_integer(), 7);
    assert_eq!(Any::from(true).to_integer(), 1);
    assert_eq!(ints(&[1]).to_integer(), 0);
    assert_eq!(Any::from(u64::MAX).to_integer(), -1);
    assert_eq!(double(3.9).to_integer(), 3);
    assert_eq!(double(-3.9).to_integer(), -3);
    assert_eq!(double(1e300).to_integer(), i64::MAX);
    assert_eq!(double(-1e300).to_integer(), i64::MIN);
    assert_eq!(double(f64::NAN).to_integer(), 0);
    assert_eq!(single(1024.5).to_integer(), 1024);
    assert_eq!(double(4503599627370497.0).to_integer(), 4503599627370497);

    assert!(Any::from(2).to_boolean());
    assert!(!Any::from(0_u8).to_boolean());
    assert!(!double(-0.0).to_boolean());
    assert!(double(f64::NAN).to_boolean());
    assert!(string("true").to_boolean());
    assert!(!string("false").to_boolean());
    assert!(!string("1").to_boolean());
    assert!(ints(&[]).to_boolean());
    assert!(!Any::new(Null).to_boolean());

    assert!(Any::from(ints(&[1, 2]).to_array()) == ints(&[1, 2]));
    assert!(Any::from(Any::from(3).to_array()) == ints(&[3]));
    assert!(Any::from(Any::new("s").to_array()) == Any::from(vec![Any::new("s")]));
    assert!(Any::from(string("s").to_array()) == Any::from(vec![string("s")]));
    assert!(Any::from(Any::new(Null).to_array()) == Any::from(vec![Any::new(Null)]));
    assert!(Any::from(Dict::new()).to_array().length() == 0);
    assert!(Any::from(5).to_map().length() == 0);

    let p = ints(&[1, 2, 3]).to_pair();
    assert!(p.0 == Any::from(1) && p.1 == Any::from(2));
    let p = ints(&[1]).to_pair();
    assert!(p.0 == null() && p.1 == null());

    match string("2.5").to_float() {
        Real::Text(t) => assert_eq!(t, "2.5"),
        _ => panic!("expected text"),
    }
    match Any::from(7_u64).to_float() {
        Real::Int(i) => assert_eq!(i, 7),
        _ => panic!("expected an integer"),
    }
}

#[test]
fn strings_iterate_by_character() {
    let s = string("héllo");
    assert!(s.length() == Any::from(6_usize));
    assert!(string("é").length() == Any::from(2_usize));
    assert!(string("€").length() == Any::from(3_usize));
    assert!(string("😀").length() == Any::from(4_usize));
    assert!(Any::new("ab").length() == Any::from(2_usize));
    let items = s.items();
    assert_eq!(items.len(), 5);
    assert!(items[1] == string("é"));
    assert!(items[4] == string("o"));
    assert!(string("").is_empty() == Any::from(true));
}

#[test]
fn maps_iterate_as_pairs() {
    let mut m = Any::from(Dict::new());
    m.set(string("a"), Any::from(1));
    let items = m.items();
    assert_eq!(items.len(), 1);
    assert!(items[0] == Any::from(Pair::new(string("a"), Any::from(1))));
    let a = ints(&[4, 5]);
    let items = a.items();
    assert!(items[1] == Any::from(5));
}

#[test]
fn function_clones_share_the_callable() {
    let count = Arc::new(AtomicUsize::new(0));
    let seen = count.clone();
    let f = Function::new(
        move |args: Any| {
            seen.fetch_add(1, Ordering::SeqCst);
            args
        },
        1,
    );
    let g = f.clone();
    assert_eq!(g.args_count(), 1);
    assert!(f.call(Any::from(1)) == Any::from(1));
    assert!(g.call(Any::from(2)) == Any::from(2));
    assert_eq!(count.load(Ordering::SeqCst), 2);

    let v = Any::from(f);
    assert!(v.call(Any::from(3)) == Any::from(3));
    let w = v.clone();
    assert!(w.call(Any::from(4)) == Any::from(4));
    assert_eq!(count.load(Ordering::SeqCst), 4);
    assert!(Any::from(1).call(Any::from(1)) == null());
    assert!(Any::from(1).to_function().call(Any::from(1)) == null());
}

#[test]
fn pairs() {
    let p = Pair::new(Any::from(1), string("b"));
    let (a, b) = p.to_tuple();
    assert!(a == Any::from(1));
    assert!(b == string("b"));
    let v = Any::from(Pair::from((Any::from(1), Any::from(2))));
    assert!(v.to_pair().1 == Any::from(2));
    assert!(v == Any::from(Pair::new(Any::from(1), Any::from(2))));
}

#[test]
fn pairs_compare_by_rendering() {
    let a = Any::from(Pair::new(string("1"), Any::from(2)));
    let b = Any::from(Pair::new(Any::from(1), Any::from(2_i64)));
    assert_eq!(a.to_str(), "(1, 2)");
    assert!(a == b);
    assert_eq!(a.hash_code(), b.hash_code());
    assert_eq!(hash_of(&a), hash_of(&b));
    let c = Any::from(Pair::new(Any::from(1), Any::from(3)));
    assert!(a != c);
    let f = Any::from(Pair::new(double(1.5), Any::from(2)));
    let g = Any::from(Pair::new(double(1.5), Any::from(2)));
    assert!(f == g);
    assert!(f != a);
}

#[test]
fn conversions_from_text() {
    assert!(Any::from('x') == string("x"));
    assert!(Any::from("ab") == string("ab"));
    assert!(Any::from("ab") != Any::new("ab"));
    assert!(Any::from("ab").type_id() == Kind::String);
}

#[test]
fn arrays_from_vectors() {
    let a = Array::from(vec![Any::from(1), Any::from(2)]);
    assert_eq!(a.length(), 2);
    assert!(Any::from(a) == ints(&[1, 2]));
}

#[test]
fn capabilities_render() {
    assert_eq!(format_pieces(7_u8.to_str()), "7");
    assert_eq!(format_pieces(true.to_str()), "true");
    assert_eq!(format_pieces(Null.to_str()), "null");
    assert_eq!(format_pieces("ab".to_string().to_str()), "ab");
    let mut d = Dict::new();
    d.set(string("k"), Any::from(1));
    assert_eq!(format_pieces(d.to_str()), "{k: 1}");
    assert_eq!(format_pieces(Pair::new(Any::from(1), double(0.5)).to_str()), "(1, 0.5)");
}

fn movable_between_threads<T: Send + Sync>(_value: &T) -> bool {
    true
}

#[test]
fn values_move_between_threads() {
    let v = Any::from(vec![Any::from(1), Any::from(Function::new(|a: Any| a, 1))]);
    assert!(movable_between_threads(&v));
    assert!(v.index(&Any::from(1)).call(Any::from(9)) == Any::from(9));
}

#[test]
fn a_function_converts_to_itself() {
    let f = Any::from(Function::new(|_a: Any| Any::from(3), 2));
    let g = f.to_function();
    assert_eq!(g.args_count(), 2);
    assert!(g.call(null()) == Any::from(3));
    assert_eq!(Any::from(1).to_function().args_count(), 0);
}
