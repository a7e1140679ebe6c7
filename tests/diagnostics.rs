use rune_core::{display_slice, ArgError, Object, Type, TypeError};

fn cons(car: Object, cdr: Object) -> Object {
    Object::Cons(Box::new(car), Box::new(cdr))
}

#[test]
fn arg_error_message() {
    let e = ArgError::new(2, 3, "my-fn");
    assert_eq!(e.render(), "Expected 2 argument(s) for `my-fn', but found 3");
    assert_eq!(e, ArgError::new(2, 3, "my-fn"));
    assert_eq!(
        ArgError::new(0, 65535, "f").render(),
        "Expected 0 argument(s) for `f', but found 65535"
    );
}

#[test]
fn type_error_message_for_cons() {
    let obj = cons(Object::Int(1), Object::Int(2));
    let e = TypeError::new(Type::Int, &obj);
    assert_eq!(e.actual, Type::Cons);
    assert_eq!(e.render(), format!("expected Int, found Cons: {}", obj.print()));
    assert_eq!(e.render(), "expected Int, found Cons: (1 . 2)");
}

#[test]
fn printed_forms() {
    assert_eq!(Object::Nil.print(), "nil");
    assert_eq!(Object::True.print(), "t");
    assert_eq!(Object::Int(-120).print(), "-120");
    assert_eq!(Object::Int(i64::MAX).print(), "9223372036854775807");
    assert_eq!(Object::Symbol("car".to_string()).print(), "car");
    let list = cons(Object::Int(1), cons(Object::Int(2), cons(Object::Int(3), Object::Nil)));
    assert_eq!(list.print(), "(1 2 3)");
    let dotted = cons(Object::Int(1), cons(Object::Int(2), Object::Int(3)));
    assert_eq!(dotted.print(), "(1 2 . 3)");
    let nested = cons(cons(Object::Nil, Object::Nil), Object::Nil);
    assert_eq!(nested.print(), "((nil))");
    assert_eq!(display_slice(&[Object::Int(1), Object::String("x".to_string())]), "[1 \"x\"]");
    assert_eq!(display_slice(&[]), "[]");
}
