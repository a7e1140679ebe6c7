use rune_core::{
    check_type, from_bool, from_option, to_bool, to_cons, to_flag, to_int, to_opt_int, to_opt_str,
    to_opt_usize, to_str, to_u64, to_usize, try_from_slice, ConvertError, Object, Type, TypeError,
};

fn cons(car: Object, cdr: Object) -> Object {
    Object::Cons(Box::new(car), Box::new(cdr))
}

fn wrapper(args: &[Object]) -> Result<i64, TypeError> {
    Ok(inner(to_opt_int(&args[0])?, to_cons(&args[1])?))
}

fn inner(arg0: Option<i64>, arg1: (&Object, &Object)) -> i64 {
    let x: i64 = to_int(arg1.0).unwrap();
    arg0.unwrap() + x
}

#[test]
fn test() {
    let obj0 = Object::Int(5);
    let obj1 = cons(Object::Int(1), Object::Int(2));
    let vec = vec![obj0, obj1];
    let res = wrapper(vec.as_slice());
    assert_eq!(6, res.unwrap());
}

#[test]
fn non_negative_integers_round_trip() {
    for n in [0i64, 1, 42, i64::MAX] {
        assert_eq!(to_u64(&Object::Int(n)), Ok(n as u64));
        assert_eq!(to_usize(&Object::Int(n)), Ok(n as usize));
        assert_eq!(to_opt_usize(&Object::Int(n)), Ok(Some(n as usize)));
    }
}

#[test]
fn negative_integers_fail_with_range_error() {
    for n in [-1i64, -17, i64::MIN] {
        let e = to_u64(&Object::Int(n)).unwrap_err();
        assert_eq!(e, ConvertError::Range(n));
        let msg = e.render();
        assert!(msg.contains(&n.to_string()));
        assert!(!msg.starts_with("expected"));
        assert_eq!(to_usize(&Object::Int(n)), Err(ConvertError::Range(n)));
        assert_eq!(to_opt_usize(&Object::Int(n)), Err(ConvertError::Range(n)));
    }
    assert_eq!(
        to_u64(&Object::Int(-7)).unwrap_err().render(),
        "Integer must be positive, but was -7"
    );
    assert_eq!(
        to_u64(&Object::Int(i64::MIN)).unwrap_err().render(),
        "Integer must be positive, but was -9223372036854775808"
    );
}

#[test]
fn unsigned_conversion_of_wrong_tag_is_type_error() {
    let e = to_u64(&Object::String("x".to_string())).unwrap_err();
    match e {
        ConvertError::Type(t) => {
            assert_eq!(t.expect, Type::Int);
            assert_eq!(t.actual, Type::String);
            assert_eq!(t.print, "\"x\"");
        }
        ConvertError::Range(_) => panic!("range error for a string"),
    }
    assert!(matches!(to_usize(&Object::Nil), Err(ConvertError::Type(_))));
    assert_eq!(to_opt_usize(&Object::Nil), Ok(None));
}

#[test]
fn optional_text_conversion() {
    assert_eq!(to_opt_str(&Object::Nil), Ok(None));
    let s = Object::String("hello".to_string());
    assert_eq!(to_opt_str(&s), Ok(Some("hello")));
    assert_eq!(to_str(&s), Ok("hello"));
    let e = to_opt_str(&Object::Int(3)).unwrap_err();
    assert_eq!(e.expect, Type::String);
    assert_eq!(e.actual, Type::Int);
    assert_eq!(e.print, "3");
    assert_eq!(to_str(&Object::Nil).unwrap_err().actual, Type::Symbol);
}

#[test]
fn boolean_conversion_never_fails() {
    assert!(!to_bool(&Object::Nil));
    assert!(to_bool(&Object::True));
    assert!(to_bool(&Object::Int(0)));
    assert!(to_bool(&Object::String(String::new())));
    assert!(to_bool(&cons(Object::Nil, Object::Nil)));
    assert_eq!(to_flag(&Object::Nil), None);
    assert_eq!(to_flag(&Object::Int(0)), Some(()));
}

#[test]
fn values_from_bool_and_option() {
    assert_eq!(from_bool(true), Object::True);
    assert_eq!(from_bool(false), Object::Nil);
    assert_eq!(from_option(None), Object::Nil);
    assert_eq!(from_option(Some(Object::Int(4))), Object::Int(4));
}

#[test]
fn whole_slice_conversion_shares_the_slice() {
    let objs = vec![Object::Int(1), Object::Int(-2), Object::Int(3)];
    let view = try_from_slice(&objs, Type::Int).unwrap();
    assert_eq!(view.len(), 3);
    assert!(std::ptr::eq(view.as_slice(), objs.as_slice()));
    for i in 0..3 {
        assert!(std::ptr::eq(view.get(i), &objs[i]));
    }
    assert_eq!(view.int_at(1), -2);
    let empty: Vec<Object> = Vec::new();
    assert_eq!(try_from_slice(&empty, Type::String).unwrap().len(), 0);
}

#[test]
fn whole_slice_conversion_reports_first_bad_element() {
    let objs = vec![
        Object::Int(1),
        Object::String("a".to_string()),
        cons(Object::Int(1), Object::Nil),
    ];
    let e = try_from_slice(&objs, Type::Int).err().unwrap();
    assert_eq!(e, check_type(&objs[1], Type::Int).unwrap_err());
    assert_eq!(e, TypeError::new(Type::Int, &objs[1]));
    assert_eq!(e.render(), "expected Int, found String: \"a\"");
}

#[test]
fn aggregate_categories() {
    let list = cons(Object::Int(1), Object::Nil);
    assert!(try_from_slice(std::slice::from_ref(&list), Type::List).is_ok());
    assert!(check_type(&Object::Nil, Type::List).is_ok());
    assert!(check_type(&Object::String("s".to_string()), Type::Sequence).is_ok());
    assert!(check_type(&Object::Int(1), Type::Number).is_ok());
    assert!(check_type(&Object::Symbol("a".to_string()), Type::Symbol).is_ok());
    assert!(check_type(&Object::Int(1), Type::Vec).is_err());
}
