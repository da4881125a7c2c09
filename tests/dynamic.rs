use anyrust::{Any, Dict, Function, Null, Op, Outcome, Piece, Real};

fn ints(xs: &[i32]) -> Any {
    Any::from(xs.iter().map(|x| Any::from(*x)).collect::<Vec<Any>>())
}

fn double(x: f64) -> Any {
    Any::F64(x.to_bits())
}

fn single(x: f32) -> Any {
    Any::F32(x.to_bits())
}

fn read(r: Real) -> f64 {
    match r {
        Real::Int(i) => i as f64,
        Real::Single(b) => f32::from_bits(b) as f64,
        Real::Double(b) => f64::from_bits(b),
        Real::Text(s) => s.parse().unwrap(),
    }
}

/// Does the float work that the library hands back.
fn finish(o: Outcome) -> Any {
    match o {
        Outcome::Value(v) => v,
        Outcome::Float(op, a, b) => {
            let (x, y) = (read(a), read(b));
            let r = match op {
                Op::Add => x + y,
                Op::Sub => x - y,
                Op::Mul => x * y,
                Op::Div => x / y,
            };
            double(r)
        }
        Outcome::Text(pieces) => {
            let mut s = String::new();
            for p in pieces {
                match p {
                    Piece::Text(t) => s.push_str(&t),
                    Piece::Single(b) => s.push_str(&f32::from_bits(b).to_string()),
                    Piece::Double(b) => s.push_str(&f64::from_bits(b).to_string()),
                }
            }
            Any::String(s)
        }
        Outcome::Fault(f) => panic!("{:?}", f),
    }
}

#[test]
fn test_function() {
    let f = Function::new(
        |args: Any| {
            let mut sum = Any::from(0);
            for arg in args.to_array().0 {
                sum = finish(sum.add(arg));
            }
            sum
        },
        1,
    );

    let result = f.call(ints(&[1, 2, 3, 4, 5]));
    assert!(result == Any::from(15_i64));

    let result = f.call(ints(&[1, 2, 3, 4, 5, 7]));
    assert!(result == Any::from(22_i64));
}

#[test]
fn lib_test_is_integer() {
    assert!(Any::new(5_i64).is_integer());
    assert!(Any::new(5_u64).is_integer());
    assert!(Any::new(5_i32).is_integer());
    assert!(Any::new(5_u32).is_integer());
    assert!(Any::new(5_i16).is_integer());
    assert!(Any::new(5_u16).is_integer());
    assert!(Any::new(5_i8).is_integer());
    assert!(Any::new(5_u8).is_integer());
    assert!(Any::new(5_isize).is_integer());
    assert!(Any::new(5_usize).is_integer());
    assert!(!double(5.0).is_integer());
    assert!(!Any::new("5").is_integer());
    assert!(!Any::new("5.0").is_integer());
    assert!(!Any::new(true).is_integer());
    assert!(!Any::new(Null).is_integer());
    assert!(!ints(&[1, 2, 3]).is_integer());
    assert!(!Any::from(Dict::new()).is_integer());
}

#[test]
fn test_is_integer() {
    assert!(Any::new(5_i64).is_integer());
    assert!(Any::new(5_u64).is_integer());
    assert!(Any::new(5_i32).is_integer());
    assert!(Any::new(5_u32).is_integer());
    assert!(Any::new(5_i16).is_integer());
    assert!(Any::new(5_u16).is_integer());
    assert!(Any::new(5_i8).is_integer());
    assert!(Any::new(5_u8).is_integer());
    assert!(Any::new(5_isize).is_integer());
    assert!(Any::new(5_usize).is_integer());
    assert!(!double(5.0).is_integer());
    assert!(!Any::new("5").is_integer());
    assert!(!Any::new("5.0").is_integer());
    assert!(!Any::new(true).is_integer());
    assert!(!Any::new(Null).is_integer());
    assert!(!ints(&[1, 2, 3]).is_integer());
    assert!(!Any::from(Dict::new()).is_integer());
}

#[test]
fn lib_test_is_float() {
    assert!(double(5.0).is_float());
    assert!(single(5.0).is_float());
    assert!(double(5.0_f64).is_float());
    assert!(!Any::new(5).is_float());
    assert!(!Any::new("5").is_float());
    assert!(!Any::new("5.0").is_float());
    assert!(!Any::new(true).is_float());
    assert!(!Any::new(Null).is_float());
    assert!(!ints(&[1, 2, 3]).is_float());
    assert!(!Any::from(Dict::new()).is_float());
}

#[test]
fn test_is_float() {
    assert!(double(5.0).is_float());
    assert!(single(5.0).is_float());
    assert!(double(5.0_f64).is_float());
    assert!(!Any::new(5).is_float());
    assert!(!Any::new("5").is_float());
    assert!(!Any::new("5.0").is_float());
    assert!(!Any::new(true).is_float());
    assert!(!Any::new(Null).is_float());
    assert!(!ints(&[1, 2, 3]).is_float());
    assert!(!Any::from(Dict::new()).is_float());
}

#[test]
fn lib_test_is_number() {
    assert!(double(5.0).is_number());
    assert!(single(5.0).is_number());
    assert!(double(5.0_f64).is_number());
    assert!(Any::new(5).is_number());
    assert!(!Any::new("5").is_number());
    assert!(!Any::new("5.0").is_number());
    assert!(!Any::new(true).is_number());
    assert!(!Any::new(Null).is_number());
    assert!(!ints(&[1, 2, 3]).is_number());
    assert!(!Any::from(Dict::new()).is_number());
}

#[test]
fn test_is_number() {
    assert!(double(5.0).is_number());
    assert!(single(5.0).is_number());
    assert!(double(5.0_f64).is_number());
    assert!(Any::new(5).is_number());
    assert!(!Any::new("5").is_number());
    assert!(!Any::new("5.0").is_number());
    assert!(!Any::new(true).is_number());
    assert!(!Any::new(Null).is_number());
    assert!(!ints(&[1, 2, 3]).is_number());
    assert!(!Any::from(Dict::new()).is_number());
}

#[test]
fn lib_test_is_nan() {
    assert!(double(f64::NAN).is_nan());
    assert!(!double(5.0).is_nan());
    assert!(!Any::new(5).is_nan());
    assert!(!Any::new("5").is_nan());
    assert!(!Any::new("5.0").is_nan());
    assert!(!Any::new(true).is_nan());
    assert!(!Any::new(Null).is_nan());
    assert!(!ints(&[1, 2, 3]).is_nan());
    assert!(!Any::from(Dict::new()).is_nan());
}

#[test]
fn test_is_nan() {
    assert!(double(f64::NAN).is_nan());
    assert!(!double(5.0).is_nan());
    assert!(!Any::new(5).is_nan());
    assert!(!Any::new("5").is_nan());
    assert!(!Any::new("5.0").is_nan());
    assert!(!Any::new(true).is_nan());
    assert!(!Any::new(Null).is_nan());
    assert!(!ints(&[1, 2, 3]).is_nan());
    assert!(!Any::from(Dict::new()).is_nan());
}

#[test]
fn lib_test_is_string() {
    assert!(Any::new("5").is_string());
    assert!(Any::new("5.0").is_string());
    assert!(!double(5.0).is_string());
    assert!(!Any::new(5).is_string());
    assert!(!Any::new(true).is_string());
    assert!(!Any::new(Null).is_string());
    assert!(!ints(&[1, 2, 3]).is_string());
    assert!(!Any::from(Dict::new()).is_string());
}

#[test]
fn test_is_string() {
    assert!(Any::new("5").is_string());
    assert!(Any::new("5.0").is_string());
    assert!(!double(5.0).is_string());
    assert!(!Any::new(5).is_string());
    assert!(!Any::new(true).is_string());
    assert!(!Any::new(Null).is_string());
    assert!(!ints(&[1, 2, 3]).is_string());
    assert!(!Any::from(Dict::new()).is_string());
}

#[test]
fn lib_test_is_array() {
    assert!(ints(&[1, 2, 3]).is_array());
    assert!(!Any::from(Dict::new()).is_array());
    assert!(!Any::new("5").is_array());
    assert!(!Any::new("5.0").is_array());
    assert!(!double(5.0).is_array());
    assert!(!Any::new(5).is_array());
    assert!(!Any::new(true).is_array());
    assert!(!Any::new(Null).is_array());
}

#[test]
fn test_is_array() {
    assert!(ints(&[1, 2, 3]).is_array());
    assert!(!Any::from(Dict::new()).is_array());
    assert!(!Any::new("5").is_array());
    assert!(!Any::new("5.0").is_array());
    assert!(!double(5.0).is_array());
    assert!(!Any::new(5).is_array());
    assert!(!Any::new(true).is_array());
    assert!(!Any::new(Null).is_array());
}

#[test]
fn lib_test_is_map() {
    assert!(Any::from(Dict::new()).is_map());
    assert!(!ints(&[1, 2, 3]).is_map());
    assert!(!Any::new("5").is_map());
    assert!(!Any::new("5.0").is_map());
    assert!(!double(5.0).is_map());
    assert!(!Any::new(5).is_map());
    assert!(!Any::new(true).is_map());
    assert!(!Any::new(Null).is_map());
}

#[test]
fn test_is_map() {
    assert!(Any::from(Dict::new()).is_map());
    assert!(!ints(&[1, 2, 3]).is_map());
    assert!(!Any::new("5").is_map());
    assert!(!Any::new("5.0").is_map());
    assert!(!double(5.0).is_map());
    assert!(!Any::new(5).is_map());
    assert!(!Any::new(true).is_map());
    assert!(!Any::new(Null).is_map());
}

#[test]
fn lib_test_is_null() {
    assert!(Any::new(Null).is_null());
    assert!(!Any::from(Dict::new()).is_null());
    assert!(!ints(&[1, 2, 3]).is_null());
    assert!(!Any::new("5").is_null());
    assert!(!Any::new("5.0").is_null());
    assert!(!double(5.0).is_null());
    assert!(!Any::new(5).is_null());
    assert!(!Any::new(true).is_null());
}

#[test]
fn test_is_null() {
    assert!(Any::new(Null).is_null());
    assert!(!Any::from(Dict::new()).is_null());
    assert!(!ints(&[1, 2, 3]).is_null());
    assert!(!Any::new("5").is_null());
    assert!(!Any::new("5.0").is_null());
    assert!(!double(5.0).is_null());
    assert!(!Any::new(5).is_null());
    assert!(!Any::new(true).is_null());
}

#[test]
fn lib_test_is_boolean() {
    assert!(Any::new(true).is_boolean());
    assert!(Any::new(false).is_boolean());
    assert!(!double(5.0).is_boolean());
    assert!(!Any::new(5).is_boolean());
    assert!(!Any::new("5").is_boolean());
    assert!(!Any::new("5.0").is_boolean());
    assert!(!Any::new(Null).is_boolean());
    assert!(!ints(&[1, 2, 3]).is_boolean());
    assert!(!Any::from(Dict::new()).is_boolean());
}

#[test]
fn test_is_boolean() {
    assert!(Any::new(true).is_boolean());
    assert!(Any::new(false).is_boolean());
    assert!(!double(5.0).is_boolean());
    assert!(!Any::new(5).is_boolean());
    assert!(!Any::new("5").is_boolean());
    assert!(!Any::new("5.0").is_boolean());
    assert!(!Any::new(Null).is_boolean());
    assert!(!ints(&[1, 2, 3]).is_boolean());
    assert!(!Any::from(Dict::new()).is_boolean());
}

#[test]
fn lib_test_add() {
    let cases = vec![
        ("i64", Any::new(5_i64), Any::new(10_i64), Any::new(15_i64)),
        ("u64", Any::new(5_u64), Any::new(10_u64), Any::new(15_i64)),
        ("f32", single(5.0), single(10.0), double(15.0)),
        ("f64", double(5.0), double(10.0), double(15.0)),
        ("string", Any::new("5".to_string()), Any::new("10".to_string()), Any::new("510".to_string())),
        ("str", Any::new("5"), Any::new("10"), Any::new("510".to_string())),
    ];
    for (name, a, b, result) in cases {
        assert!(finish(a.add(b)) == result, "TC: {}", name);
    }
}

#[test]
fn test_add() {
    let cases = vec![
        ("i64", Any::new(5_i64), Any::new(10_i64), Any::new(15_i64)),
        ("u64", Any::new(5_u64), Any::new(10_u64), Any::new(15_i64)),
        ("f32", single(5.0), single(10.0), double(15.0)),
        ("f64", double(5.0), double(10.0), double(15.0)),
        ("string", Any::new("5".to_string()), Any::new("10".to_string()), Any::new("510".to_string())),
        ("str", Any::new("5"), Any::new("10"), Any::new("510".to_string())),
    ];
    for (name, a, b, result) in cases {
        assert!(finish(a.add(b)) == result, "TC: {}", name);
    }
}

#[test]
fn lib_test_add_assign() {
    let mut a = Any::new(5_i64);
    let b = Any::new(10_i64);
    a = finish(a.add(b));
    assert!(a == Any::new(15_i64));
}

#[test]
fn test_add_assign() {
    let mut a = Any::new(5_i64);
    let b = Any::new(10_i64);
    a = finish(a.add(b));
    assert!(a == Any::new(15_i64));
}

#[test]
fn lib_test_sub() {
    let cases = vec![
        ("i64", Any::new(5_i64), Any::new(10_i64), Any::new(-5_i64)),
        ("u64", Any::new(5_u64), Any::new(10_u64), Any::new(-5_i64)),
        ("f32", single(5.0), single(10.0), double(-5.0)),
        ("f64", double(5.0), double(10.0), double(-5.0)),
    ];
    for (name, a, b, result) in cases {
        assert!(finish(a.sub(b)) == result, "TC: {}", name);
    }
}

#[test]
fn test_sub() {
    let cases = vec![
        ("i64", Any::new(5_i64), Any::new(10_i64), Any::new(-5_i64)),
        ("u64", Any::new(5_u64), Any::new(10_u64), Any::new(-5_i64)),
        ("f32", single(5.0), single(10.0), double(-5.0)),
        ("f64", double(5.0), double(10.0), double(-5.0)),
    ];
    for (name, a, b, result) in cases {
        assert!(finish(a.sub(b)) == result, "TC: {}", name);
    }
}

#[test]
fn lib_test_sub_assign() {
    let mut a = Any::new(5_i64);
    let b = Any::new(10_i64);
    a = finish(a.sub(b));
    assert!(a == Any::new(-5_i64));
}

#[test]
fn test_sub_assign() {
    let mut a = Any::new(5_i64);
    let b = Any::new(10_i64);
    a = finish(a.sub(b));
    assert!(a == Any::new(-5_i64));
}

#[test]
fn lib_test_mul() {
    let cases = vec![
        ("i64", Any::new(5_i64), Any::new(10_i64), Any::new(50_i64)),
        ("u64", Any::new(5_u64), Any::new(10_u64), Any::new(50_i64)),
        ("f32", single(5.0), single(10.0), double(50.0)),
        ("f64", double(5.0), double(10.0), double(50.0)),
    ];
    for (name, a, b, result) in cases {
        assert!(finish(a.mul(b)) == result, "TC: {}", name);
    }
}

#[test]
fn test_mul() {
    let cases = vec![
        ("i64", Any::new(5_i64), Any::new(10_i64), Any::new(50_i64)),
        ("u64", Any::new(5_u64), Any::new(10_u64), Any::new(50_i64)),
        ("f32", single(5.0), single(10.0), double(50.0)),
        ("f64", double(5.0), double(10.0), double(50.0)),
    ];
    for (name, a, b, result) in cases {
        assert!(finish(a.mul(b)) == result, "TC: {}", name);
    }
}

#[test]
fn lib_test_mul_assign() {
    let mut a = Any::new(5_i64);
    let b = Any::new(10_i64);
    a = finish(a.mul(b));
    assert!(a == Any::new(50_i64));
}

#[test]
fn test_mul_assign() {
    let mut a = Any::new(5_i64);
    let b = Any::new(10_i64);
    a = finish(a.mul(b));
    assert!(a == Any::new(50_i64));
}

#[test]
fn lib_test_div() {
    let cases = vec![
        ("i64", Any::new(5_i64), Any::new(10_i64), Any::new(0_i64)),
        ("u64", Any::new(5_u64), Any::new(10_u64), Any::new(0_i64)),
        ("f32", single(5.0), single(10.0), double(0.5)),
        ("f64", double(5.0), double(10.0), double(0.5)),
    ];
    for (name, a, b, result) in cases {
        assert!(finish(a.div(b)) == result, "TC: {}", name);
    }
}

#[test]
fn test_div() {
    let cases = vec![
        ("i64", Any::new(5_i64), Any::new(10_i64), Any::new(0_i64)),
        ("u64", Any::new(5_u64), Any::new(10_u64), Any::new(0_i64)),
        ("f32", single(5.0), single(10.0), double(0.5)),
        ("f64", double(5.0), double(10.0), double(0.5)),
    ];
    for (name, a, b, result) in cases {
        assert!(finish(a.div(b)) == result, "TC: {}", name);
    }
}

#[test]
fn lib_test_div_assign() {
    let mut a = Any::new(5_i64);
    let b = Any::new(10_i64);
    a = finish(a.div(b));
    assert!(a == Any::new(0_i64));
}

#[test]
fn test_div_assign() {
    let mut a = Any::new(5_i64);
    let b = Any::new(10_i64);
    a = finish(a.div(b));
    assert!(a == Any::new(0_i64));
}

#[test]
fn lib_test_not() {
    let cases = vec![
        ("true", Any::new(true), Any::new(false)),
        ("false", Any::new(false), Any::new(true)),
        ("zero value", Any::new(0), Any::new(true)),
        ("non zero value", Any::new(4444), Any::new(false)),
    ];
    for (name, a, result) in cases {
        assert!(a.not() == result, "TC: {}", name);
    }
}

#[test]
fn test_not() {
    let cases = vec![
        ("true", Any::new(true), Any::new(false)),
        ("false", Any::new(false), Any::new(true)),
        ("zero value", Any::new(0), Any::new(true)),
        ("non zero value", Any::new(4444), Any::new(false)),
    ];
    for (name, a, result) in cases {
        assert!(a.not() == result, "TC: {}", name);
    }
}

#[test]
fn lib_test_eq() {
    assert!(Any::new(5) == Any::new(5));
    assert!(Any::new(5) != Any::new(10));
    assert!(Any::new(5) != double(5.0));
    assert!(Any::new(5) != double(5.0));
    assert!(Any::new(5) != Any::new("5"));
    assert!(Any::new(5) != Any::new("5"));
    assert!(Any::new(5) != Any::new(true));
    assert!(Any::new(5) != Any::new(false));
    assert!(Any::new(5) != ints(&[1, 2, 3]));
    assert!(Any::new(5) != Any::from(Dict::new()));
    assert!(Any::new(5) != Any::new(Null));
}
#[test]
fn test_eq() {
    assert!(Any::new(5) == Any::new(5));
    assert!(Any::new(5) != Any::new(10));
    assert!(Any::new(5) != double(5.0));
    assert!(Any::new(5) != double(5.0));
    assert!(Any::new(5) != Any::new("5"));
    assert!(Any::new(5) != Any::new("5"));
    assert!(Any::new(5) != Any::new(true));
    assert!(Any::new(5) != Any::new(false));
    assert!(Any::new(5) != ints(&[1, 2, 3]));
    assert!(Any::new(5) != Any::from(Dict::new()));
    assert!(Any::new(5) != Any::new(Null));
}
