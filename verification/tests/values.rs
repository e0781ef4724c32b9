use dynvalue::any::ValueAny;
use dynvalue::cast::{Cast, CastResult};
use dynvalue::color::{Color, RgbaColor};
use dynvalue::dir::Dir;
use dynvalue::fixed::Fixed;
use dynvalue::float::Float64;
use dynvalue::func::ValueFunc;
use dynvalue::geom::{Angle, Length, Linear, Relative};
use dynvalue::markup::{EvalContext, OutputNode, Template};
use dynvalue::syntax::{Span, Spanned};
use dynvalue::value::{Value, ValueDict};

fn check_pretty(value: Value, exp: &str) {
    assert_eq!(value.pretty(), exp);
}

fn float_value(x: f64) -> Value {
    Value::Float(Float64::new(ryu::Buffer::new().format(x).to_string()))
}

#[test]
fn test_pretty_print_simple_values() {
    check_pretty(Value::Nil, "none");
    check_pretty(Value::Bool(false), "false");
    check_pretty(float_value(12.4), "12.4");
    check_pretty(Value::Length(Length::pt(Fixed::from_thousandths(5500))), "5.5pt");
    check_pretty(Value::Angle(Angle::deg(Fixed::from_thousandths(90000))), "90.0deg");
    check_pretty(Value::Relative(Relative::percent(Fixed::from_thousandths(50000))), "50.0%");
    check_pretty(
        Value::Linear(Linear::new(
            Relative::percent(Fixed::from_thousandths(30000)),
            Length::cm(Fixed::from_thousandths(2000)),
        )),
        "30.0% + 2.0cm",
    );
    check_pretty(Value::Color(Color::Rgba(RgbaColor::new(1, 1, 1, 0xff))), "#010101");
    check_pretty(Value::Str(String::from("hello")), r#""hello""#);
    check_pretty(Value::Template(Template::new(String::from("*"), Vec::new())), "[*]");
    check_pretty(Value::Func(ValueFunc::new(String::from("nil"))), "(function nil)");
    check_pretty(Value::Any(ValueAny::new(1i64)), "1");
    check_pretty(Value::Error, "(error)");
}

#[test]
fn test_pretty_print_collections() {
    // Array.
    check_pretty(Value::Array(vec![]), "()");
    check_pretty(Value::Array(vec![Value::Nil]), "(none,)");
    check_pretty(Value::Array(vec![Value::Int(1), Value::Int(2)]), "(1, 2)");

    // Dictionary.
    let mut dict = ValueDict::new();
    dict.insert(String::from("one"), Value::Int(1));
    dict.insert(
        String::from("two"),
        Value::Template(Template::new(String::from("[f]"), Vec::new())),
    );
    check_pretty(Value::Dict(ValueDict::new()), "(:)");
    check_pretty(Value::Dict(dict), "(one: 1, two: [[f]])");
}

#[test]
fn test_pretty_integers_and_escapes() {
    check_pretty(Value::Int(12), "12");
    check_pretty(Value::Int(-12), "-12");
    check_pretty(Value::Int(i64::MIN), "-9223372036854775808");
    check_pretty(Value::Str(String::from("a\"b\\c")), "\"a\\\"b\\\\c\"");
    check_pretty(Value::Str(String::from("a\nb\tc\rd")), "\"a\\nb\\tc\\rd\"");
    check_pretty(Value::Str(String::from("a\u{1}b\u{1f}c")), "\"a\\u{1}b\\u{1f}c\"");
    check_pretty(Value::Length(Length::pt(Fixed::from_thousandths(-5500))), "-5.5pt");
    check_pretty(Value::Length(Length::mm(Fixed::from_thousandths(250))), "0.25mm");
    check_pretty(Value::Color(Color::Rgba(RgbaColor::new(0xf7, 0x91, 0x43, 0x10))), "#f7914310");
}

#[test]
fn test_type_labels() {
    assert_eq!(Value::Nil.type_label(), "none");
    assert_eq!(Value::Bool(true).type_label(), "boolean");
    assert_eq!(Value::Int(3).type_label(), "integer");
    assert_eq!(float_value(1.5).type_label(), "float");
    assert_eq!(Value::Str(String::from("x")).type_label(), "string");
    assert_eq!(Value::Array(vec![]).type_label(), "array");
    assert_eq!(Value::Dict(ValueDict::new()).type_label(), "dictionary");
    assert_eq!(Value::Func(ValueFunc::new(String::from("f"))).type_label(), "function");
    assert_eq!(Value::Any(ValueAny::new(7i64)).type_label(), "integer");
    assert_eq!(Value::Any(ValueAny::new(Dir::Ltr)).type_label(), "direction");
    assert_eq!(Value::Error.type_label(), "error");
}

#[test]
fn test_is_numeric() {
    assert!(Value::Int(1).is_numeric());
    assert!(float_value(0.5).is_numeric());
    assert!(Value::Length(Length::pt(Fixed::from_thousandths(1))).is_numeric());
    assert!(Value::Angle(Angle::rad(Fixed::from_thousandths(1))).is_numeric());
    assert!(Value::Relative(Relative::percent(Fixed::from_thousandths(1))).is_numeric());
    assert!(!Value::Nil.is_numeric());
    assert!(!Value::Bool(true).is_numeric());
    assert!(!Value::Str(String::from("1")).is_numeric());
    assert!(!Value::Error.is_numeric());
}

#[test]
fn test_cast_exact_match() {
    assert_eq!(Value::Bool(true).cast::<bool>().ok(), Some(true));
    assert_eq!(Value::Int(7).cast::<i64>().ok(), Some(7));
    assert_eq!(Value::Str(String::from("s")).cast::<String>().ok(), Some(String::from("s")));
    let l = Length::cm(Fixed::from_thousandths(2000));
    assert_eq!(Value::Length(l).cast::<Length>().ok(), Some(l));
}

#[test]
fn test_cast_failure_returns_original() {
    match Value::Str(String::from("hi")).cast::<bool>() {
        CastResult::Failure(v) => assert_eq!(v, Value::Str(String::from("hi"))),
        _ => panic!("a string must not cast to a boolean"),
    }
    match Value::Bool(true).cast::<i64>() {
        CastResult::Failure(v) => assert_eq!(v, Value::Bool(true)),
        _ => panic!("a boolean must not cast to an integer"),
    }
}

#[test]
fn test_cast_coercions() {
    let f = Value::Int(5).cast::<Float64>().ok().unwrap();
    assert_eq!(f.to_text(), "5.0");
    let f = Value::Int(-3).cast::<Float64>().ok().unwrap();
    assert_eq!(f.to_text(), "-3.0");

    let l = Length::cm(Fixed::from_thousandths(2000));
    let lin = Value::Length(l).cast::<Linear>().ok().unwrap();
    assert_eq!(lin.abs, l);
    assert_eq!(lin.rel.percent.thousandths, 0);

    let r = Relative::percent(Fixed::from_thousandths(30000));
    let lin = Value::Relative(r).cast::<Linear>().ok().unwrap();
    assert_eq!(lin.rel, r);
    assert_eq!(lin.abs.val.thousandths, 0);

    // Not symmetric: a combined measure with a relative part is no length.
    let lin = Linear::new(r, l);
    match Value::Linear(lin).cast::<Length>() {
        CastResult::Failure(v) => assert_eq!(v, Value::Linear(lin)),
        _ => panic!("a combined measure must not cast back to a length"),
    }
}

#[test]
fn test_cast_keeps_span() {
    let sv = Spanned::new(Value::Int(7), Span::new(3, 9));
    match <i64 as Cast<Spanned<Value>>>::cast(sv) {
        CastResult::Success(n) => assert_eq!(n, 7),
        _ => panic!("an integer must cast to an integer"),
    }
    let sv = Spanned::new(Value::Str(String::from("x")), Span::new(3, 9));
    match <i64 as Cast<Spanned<Value>>>::cast(sv) {
        CastResult::Failure(v) => {
            assert_eq!(v.span.lo, 3);
            assert_eq!(v.span.hi, 9);
            assert_eq!(v.v, Value::Str(String::from("x")));
        },
        _ => panic!("a string must not cast to an integer"),
    }
    let sv = Spanned::new(Value::Int(7), Span::new(1, 2));
    match <Spanned<i64> as Cast<Spanned<Value>>>::cast(sv) {
        CastResult::Success(n) => {
            assert_eq!(n.v, 7);
            assert_eq!(n.span.lo, 1);
            assert_eq!(n.span.hi, 2);
        },
        _ => panic!("an integer must cast to a tagged integer"),
    }
}

#[test]
fn test_box_and_downcast() {
    let a = ValueAny::new(42i64);
    assert!(a.is::<i64>());
    assert!(!a.is::<bool>());
    assert_eq!(a.type_label(), "integer");
    assert_eq!(a.downcast_ref::<i64>(), Some(42));
    assert_eq!(a.downcast_ref::<bool>(), None);
    match a.downcast::<i64>() {
        Ok(n) => assert_eq!(n, 42),
        Err(_) => panic!("downcasting to the boxed type must succeed"),
    }
}

#[test]
fn test_failed_downcast_loses_nothing() {
    let a = ValueAny::new(42i64);
    match a.downcast::<bool>() {
        Ok(_) => panic!("downcasting to an unrelated type must miss"),
        Err(a) => {
            assert_eq!(a.type_label(), "integer");
            assert_eq!(a.downcast::<i64>().ok(), Some(42));
        },
    }
}

#[test]
fn test_host_type_cast_through_any() {
    let v = Value::Any(ValueAny::new(Dir::Rtl));
    assert_eq!(v.type_label(), "direction");
    assert_eq!(v.pretty(), "rtl");
    assert_eq!(v.cast::<Dir>().ok(), Some(Dir::Rtl));

    let v = Value::Any(ValueAny::new(1i64));
    match v.cast::<Dir>() {
        CastResult::Failure(v) => assert_eq!(v.type_label(), "integer"),
        _ => panic!("a boxed integer must not cast to a direction"),
    }
    match Value::Int(1).cast::<Dir>() {
        CastResult::Failure(v) => assert_eq!(v, Value::Int(1)),
        _ => panic!("a plain integer must not cast to a direction"),
    }
}

#[test]
fn test_erased_equality() {
    assert_eq!(ValueAny::new(1i64), ValueAny::new(1i64));
    assert_ne!(ValueAny::new(1i64), ValueAny::new(2i64));
    // Different concrete types are never equal, whatever the payload.
    assert_ne!(ValueAny::new(1i64), ValueAny::new(true));
    assert_ne!(ValueAny::new(0i64), ValueAny::new(Dir::Ltr));
}

#[test]
fn test_functions_never_equal() {
    let f = ValueFunc::new(String::from("nil"));
    let g = f.clone();
    assert_ne!(Value::Func(f), Value::Func(g));
    let h = ValueFunc::new(String::from("nil"));
    let k = ValueFunc::new(String::from("nil"));
    assert_ne!(Value::Func(h), Value::Func(k));
}

#[test]
fn test_equal_values_render_alike() {
    let mut d1 = ValueDict::new();
    d1.insert(String::from("b"), Value::Int(2));
    d1.insert(String::from("a"), Value::Int(1));
    let mut d2 = ValueDict::new();
    d2.insert(String::from("a"), Value::Int(1));
    d2.insert(String::from("b"), Value::Int(2));
    let v1 = Value::Dict(d1);
    let v2 = Value::Dict(d2);
    assert_eq!(v1, v2);
    assert_eq!(v1.pretty(), v2.pretty());
    assert_eq!(v1.pretty(), "(a: 1, b: 2)");
}

#[test]
fn test_dict_insert_replaces() {
    let mut d = ValueDict::new();
    d.insert(String::from("k"), Value::Int(1));
    d.insert(String::from("k"), Value::Int(2));
    assert_eq!(d.len(), 1);
    match d.get("k") {
        Some(v) => assert_eq!(*v, Value::Int(2)),
        None => panic!("the key must be present"),
    }
    assert_eq!(d.get("missing").is_none(), true);
}

#[test]
fn test_eval_bridge() {
    let mut ctx = EvalContext::new();
    Value::Nil.eval(&mut ctx);
    assert_eq!(ctx.out.len(), 0);

    Value::Str(String::from("x")).eval(&mut ctx);
    assert_eq!(ctx.out.len(), 1);
    let OutputNode::Text(t) = &ctx.out[0];
    assert_eq!(t.as_str(), "x");

    Value::Int(5).eval(&mut ctx);
    assert_eq!(ctx.out.len(), 2);
    let OutputNode::Text(t) = &ctx.out[1];
    assert_eq!(t.as_str(), "5");

    let tree = Template::new(
        String::from("*hi*"),
        vec![OutputNode::Text(String::from("hi"))],
    );
    Value::Template(tree).eval(&mut ctx);
    assert_eq!(ctx.out.len(), 3);
    let OutputNode::Text(t) = &ctx.out[2];
    assert_eq!(t.as_str(), "hi");
}

#[test]
fn test_cast_result_ok() {
    let r: CastResult<i64, Value> = CastResult::Success(3);
    assert_eq!(r.ok(), Some(3));
    let r: CastResult<i64, Value> = CastResult::Warn(4, String::from("lossy"));
    assert_eq!(r.ok(), Some(4));
    let r: CastResult<i64, Value> = CastResult::Failure(Value::Nil);
    assert_eq!(r.ok(), None);
}

#[test]
fn test_default_is_absent() {
    assert_eq!(Value::default(), Value::Nil);
}

#[test]
fn test_float_values_compare_by_text() {
    assert_eq!(float_value(12.4), float_value(12.4));
    assert_ne!(float_value(12.4), float_value(12.5));
    assert_eq!(float_value(1.0), Value::Int(1).cast::<Float64>().ok().map(Value::Float).unwrap());
}

#[test]
fn test_implicit_construction() {
    assert_eq!(Value::from(true), Value::Bool(true));
    assert_eq!(Value::from(7i64), Value::Int(7));
    assert_eq!(Value::from(String::from("hi")), Value::Str(String::from("hi")));
    assert_eq!(Value::from("hi"), Value::Str(String::from("hi")));
    let v: Value = ValueFunc::new(String::from("f")).into();
    assert_eq!(v.type_label(), "function");
}

#[test]
fn test_clone_is_faithful() {
    let mut dict = ValueDict::new();
    dict.insert(String::from("k"), Value::Int(1));
    let v = Value::Array(vec![
        Value::Nil,
        Value::Str(String::from("s")),
        Value::Dict(dict),
        Value::Any(ValueAny::new(9i64)),
    ]);
    let c = v.clone();
    assert_eq!(c, v);
    assert_eq!(c.pretty(), v.pretty());

    let a = ValueAny::new(5i64);
    let b = a.clone();
    assert_eq!(a, b);
    assert!(b.is::<i64>());
    assert_eq!(b.downcast::<i64>().ok(), Some(5));

    // A cloned function value keeps its name but still never compares equal.
    let f = ValueFunc::new(String::from("nil"));
    let g = f.clone();
    assert_eq!(g.to_text(), "(function nil)");
    assert_ne!(Value::Func(f), Value::Func(g));
}

#[test]
fn test_escape_delete_and_high_controls() {
    check_pretty(Value::Str(String::from("a\u{7f}b\u{9f}c")), "\"a\\u{7f}b\\u{9f}c\"");
    check_pretty(Value::Str(String::from("a\u{a0}b")), "\"a\u{a0}b\"");
}

#[test]
fn test_of_str() {
    assert_eq!(Value::of_str("hello"), Value::Str(String::from("hello")));
    assert_eq!(Value::of_str("").pretty(), "\"\"");
}

#[test]
fn test_builtin_casts_succeed_plainly() {
    match Value::Int(1).cast::<i64>() {
        CastResult::Success(n) => assert_eq!(n, 1),
        _ => panic!("a built-in cast must be a plain success"),
    }
    match Value::Int(2).cast::<Float64>() {
        CastResult::Success(f) => assert_eq!(f.to_text(), "2.0"),
        _ => panic!("a declared coercion must be a plain success"),
    }
    match Value::Nil.cast::<Value>() {
        CastResult::Success(v) => assert_eq!(v, Value::Nil),
        _ => panic!("the identity cast must be a plain success"),
    }
}
