//! Plain diagnostics: arity and type mismatches.

use vstd::prelude::*;
use crate::object::{category_name, printed, type_of, Object, Type};
use crate::text::{digits, unsigned_text};

verus! {

/// The function or form has the wrong number of arguments.
#[derive(Debug, PartialEq)]
pub struct ArgError {
    pub expect: u16,
    pub actual: u16,
    pub name: String,
}

/// Message of an arity mismatch.
pub open spec fn arg_error_text(expect: u16, actual: u16, name: Seq<char>) -> Seq<char> {
    "Expected "@ + digits(expect as nat) + " argument(s) for `"@ + name + "', but found "@
        + digits(actual as nat)
}

impl ArgError {
    pub fn new(expect: u16, actual: u16, name: &str) -> (r: ArgError)
        ensures
            r.expect == expect,
            r.actual == actual,
            r.name@ == name@,
    {
        ArgError { expect, actual, name: name.to_owned() }
    }

    /// The message of this diagnostic.
    pub fn render(&self) -> (r: String)
        ensures
            r@ == arg_error_text(self.expect, self.actual, self.name@),
    {
        let mut r = String::from_str("Expected ");
        let e = unsigned_text(self.expect as u64);
        r.append(e.as_str());
        r.append(" argument(s) for `");
        r.append(self.name.as_str());
        r.append("', but found ");
        let a = unsigned_text(self.actual as u64);
        r.append(a.as_str());
        r
    }
}

/// A value had the wrong type. The printed form of the value is taken when
/// the error is made, so the diagnostic does not depend on the value.
#[derive(Debug, PartialEq)]
pub struct TypeError {
    pub expect: Type,
    pub actual: Type,
    pub print: String,
}

/// Message of a type mismatch.
pub open spec fn type_error_text(expect: Type, actual: Type, print: Seq<char>) -> Seq<char> {
    "expected "@ + category_name(expect) + ", found "@ + category_name(actual) + ": "@ + print
}

impl TypeError {
    /// The type error of `obj` against the expected category.
    pub fn new(expect: Type, obj: &Object) -> (r: TypeError)
        ensures
            r.expect == expect,
            r.actual == type_of(*obj),
            r.print@ == printed(*obj),
    {
        TypeError { expect, actual: obj.get_type(), print: obj.print() }
    }

    /// The message of this diagnostic.
    pub fn render(&self) -> (r: String)
        ensures
            r@ == type_error_text(self.expect, self.actual, self.print@),
    {
        let mut r = String::from_str("expected ");
        r.append(self.expect.name());
        r.append(", found ");
        r.append(self.actual.name());
        r.append(": ");
        r.append(self.print.as_str());
        r
    }
}

} // verus!
