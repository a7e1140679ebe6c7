use rune_core::{ArgError, Cause, ConvertError, Env, ErrorType, EvalError, Object, Type, TypeError};

#[test]
fn frames_are_appended_in_order() {
    let e = EvalError::with_trace(anyhow::Error::msg("boom"), "inner", &[Object::Int(1)]);
    let e = e.add_trace("f", &[]).add_trace("g", &[Object::Nil, Object::Int(2)]);
    assert_eq!(e.backtrace().clone(), vec!["inner [1]", "f []", "g [nil 2]"]);
}

#[test]
fn rendering_ends_with_marker() {
    let e = EvalError::new(Cause::text("bad thing")).add_trace("car", &[Object::Int(3)]);
    assert_eq!(e.render(), "bad thing\ncar [3]\nEND_BACKTRACE\n");
    let host = EvalError::new_error(anyhow::Error::msg("host failure"));
    assert_eq!(host.render(), "host failure\nEND_BACKTRACE\n");
    assert!(host.render().lines().last() == Some("END_BACKTRACE"));
}

#[test]
fn signal_and_throw_register_with_env() {
    let mut env = Env::new();
    let s = EvalError::signal(Object::Symbol("error".to_string()), Object::Int(1), &mut env);
    let t = EvalError::throw(Object::Symbol("tag".to_string()), Object::Int(2), &mut env);
    assert!(matches!(s.error, ErrorType::Signal(0)));
    assert!(matches!(t.error, ErrorType::Throw(1)));
    assert_eq!(s.render(), "Signal\nEND_BACKTRACE\n");
    assert_eq!(t.add_trace("catch", &[]).render(), "No catch for throw\ncatch []\nEND_BACKTRACE\n");
    let (tag, data) = env.exception(1).unwrap();
    assert_eq!(*tag, Object::Symbol("tag".to_string()));
    assert_eq!(*data, Object::Int(2));
    assert!(env.exception(2).is_none());
    let (tag, data) = env.take_exception(0).unwrap();
    assert_eq!(tag, Object::Symbol("error".to_string()));
    assert_eq!(data, Object::Int(1));
    assert!(env.exception(0).is_none());
    assert!(env.take_exception(0).is_none());
    assert!(env.take_exception(5).is_none());
    assert!(env.exception(1).is_some());
}

#[test]
fn diagnostics_convert_into_errors() {
    let a = EvalError::new(Cause::from(ArgError::new(1, 0, "car")));
    assert_eq!(a.render(), "Expected 1 argument(s) for `car', but found 0\nEND_BACKTRACE\n");
    let t = EvalError::new(TypeError::new(Type::String, &Object::Int(9)).into());
    assert_eq!(t.render(), "expected String, found Int: 9\nEND_BACKTRACE\n");
    let r = EvalError::new(Cause::from(ConvertError::Range(-4)));
    assert_eq!(r.render(), "Integer must be positive, but was -4\nEND_BACKTRACE\n");
    let m = EvalError::new(Cause::from("owned".to_string()));
    assert_eq!(m.render(), "owned\nEND_BACKTRACE\n");
    assert!(a.backtrace().is_empty());
}
