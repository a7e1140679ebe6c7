//! Tagged runtime values, their type categories and their printed form.

use vstd::prelude::*;
use crate::text::{int_text, signed_text};

verus! {

/// The closed set of type categories that a diagnostic can name.
#[derive(PartialEq, Eq, Structural, Clone, Copy, Debug)]
pub enum Type {
    Int,
    Cons,
    Vec,
    Record,
    HashTable,
    Sequence,
    String,
    Symbol,
    Float,
    Func,
    Number,
    List,
    Buffer,
}

/// The name under which a type category is printed.
pub open spec fn category_name(t: Type) -> Seq<char> {
    match t {
        Type::Int => "Int"@,
        Type::Cons => "Cons"@,
        Type::Vec => "Vec"@,
        Type::Record => "Record"@,
        Type::HashTable => "HashTable"@,
        Type::Sequence => "Sequence"@,
        Type::String => "String"@,
        Type::Symbol => "Symbol"@,
        Type::Float => "Float"@,
        Type::Func => "Func"@,
        Type::Number => "Number"@,
        Type::List => "List"@,
        Type::Buffer => "Buffer"@,
    }
}

impl Type {
    /// The printed name of this category.
    pub fn name(&self) -> (r: &'static str)
        ensures
            r@ == category_name(*self),
    {
        match self {
            Type::Int => "Int",
            Type::Cons => "Cons",
            Type::Vec => "Vec",
            Type::Record => "Record",
            Type::HashTable => "HashTable",
            Type::Sequence => "Sequence",
            Type::String => "String",
            Type::Symbol => "Symbol",
            Type::Float => "Float",
            Type::Func => "Func",
            Type::Number => "Number",
            Type::List => "List",
            Type::Buffer => "Buffer",
        }
    }
}

/// A tagged runtime value. `Nil` is the canonical false and empty-list
/// object, `True` the canonical true object; both are symbols.
#[derive(Debug, PartialEq)]
pub enum Object {
    Nil,
    True,
    Int(i64),
    String(String),
    Symbol(String),
    Cons(Box<Object>, Box<Object>),
}

/// The dynamic type category of a value.
pub open spec fn type_of(o: Object) -> Type {
    match o {
        Object::Nil => Type::Symbol,
        Object::True => Type::Symbol,
        Object::Int(_) => Type::Int,
        Object::String(_) => Type::String,
        Object::Symbol(_) => Type::Symbol,
        Object::Cons(_, _) => Type::Cons,
    }
}

/// Whether a value passes the tag check for category `t`. Aggregate
/// categories accept each of their members: a list is nil or a cons, a
/// sequence is a list or a string, a number is an integer.
pub open spec fn has_type(o: Object, t: Type) -> bool {
    match t {
        Type::Int => o is Int,
        Type::Number => o is Int,
        Type::String => o is String,
        Type::Cons => o is Cons,
        Type::Symbol => o is Nil || o is True || o is Symbol,
        Type::List => o is Nil || o is Cons,
        Type::Sequence => o is Nil || o is Cons || o is String,
        _ => false,
    }
}

/// Printed form of a value: lists in parentheses, an improper tail after
/// a dot, strings in double quotes.
pub open spec fn printed(o: Object) -> Seq<char>
    decreases o, 0nat,
{
    match o {
        Object::Nil => "nil"@,
        Object::True => "t"@,
        Object::Int(n) => int_text(n as int),
        Object::String(s) => seq!['"'] + s@ + seq!['"'],
        Object::Symbol(s) => s@,
        Object::Cons(car, cdr) => seq!['('] + printed(*car) + printed_tail(*cdr),
    }
}

/// Printed form of what follows the first element of a list, closing
/// parenthesis included.
pub open spec fn printed_tail(o: Object) -> Seq<char>
    decreases o, 1nat,
{
    match o {
        Object::Nil => seq![')'],
        Object::Cons(car, cdr) => seq![' '] + printed(*car) + printed_tail(*cdr),
        _ => seq![' ', '.', ' '] + printed(o) + seq![')'],
    }
}

/// The printed elements of a sequence of values, separated by spaces.
pub open spec fn printed_seq(s: Seq<Object>) -> Seq<char>
    decreases s.len(),
{
    if s.len() == 0 {
        seq![]
    } else if s.len() == 1 {
        printed(s[0])
    } else {
        printed_seq(s.drop_last()) + seq![' '] + printed(s.last())
    }
}

/// Printed form of an argument list: its elements in square brackets.
pub open spec fn printed_args(s: Seq<Object>) -> Seq<char> {
    seq!['['] + printed_seq(s) + seq![']']
}

impl Object {
    /// Whether this is the canonical nil object.
    pub fn is_nil(&self) -> (r: bool)
        ensures
            r == (*self is Nil),
    {
        match self {
            Object::Nil => true,
            _ => false,
        }
    }

    /// The dynamic type category of this value.
    pub fn get_type(&self) -> (r: Type)
        ensures
            r == type_of(*self),
    {
        match self {
            Object::Nil => Type::Symbol,
            Object::True => Type::Symbol,
            Object::Int(_) => Type::Int,
            Object::String(_) => Type::String,
            Object::Symbol(_) => Type::Symbol,
            Object::Cons(_, _) => Type::Cons,
        }
    }

    /// The printed form of this value.
    pub fn print(&self) -> (r: String)
        ensures
            r@ == printed(*self),
        decreases *self, 0nat,
    {
        match self {
            Object::Nil => {
                proof { reveal_strlit("nil"); }
                String::from_str("nil")
            },
            Object::True => {
                proof { reveal_strlit("t"); }
                String::from_str("t")
            },
            Object::Int(n) => signed_text(*n),
            Object::String(s) => {
                proof { reveal_strlit("\""); }
                let mut r = String::from_str("\"");
                r.append(s.as_str());
                r.append("\"");
                r
            },
            Object::Symbol(s) => s.clone(),
            Object::Cons(car, cdr) => {
                proof { reveal_strlit("("); }
                let mut r = String::from_str("(");
                let a = car.print();
                r.append(a.as_str());
                let d = cdr.print_tail();
                r.append(d.as_str());
                r
            },
        }
    }

    fn print_tail(&self) -> (r: String)
        ensures
            r@ == printed_tail(*self),
        decreases *self, 1nat,
    {
        match self {
            Object::Nil => {
                proof { reveal_strlit(")"); }
                String::from_str(")")
            },
            Object::Cons(car, cdr) => {
                proof { reveal_strlit(" "); }
                let mut r = String::from_str(" ");
                let a = car.print();
                r.append(a.as_str());
                let d = cdr.print_tail();
                r.append(d.as_str());
                r
            },
            _ => {
                proof {
                    reveal_strlit(" . ");
                    reveal_strlit(")");
                }
                let mut r = String::from_str(" . ");
                let a = self.print();
                r.append(a.as_str());
                r.append(")");
                r
            },
        }
    }
}

/// Prints an argument list for a backtrace frame.
pub fn display_slice(args: &[Object]) -> (r: String)
    ensures
        r@ == printed_args(args@),
{
    proof { reveal_strlit("["); }
    let mut r = String::from_str("[");
    let mut i: usize = 0;
    while i < args.len()
        invariant
            0 <= i <= args@.len(),
            r@ == seq!['['] + printed_seq(args@.take(i as int)),
        decreases args@.len() - i,
    {
        if i > 0 {
            proof { reveal_strlit(" "); }
            r.append(" ");
        }
        let p = args[i].print();
        r.append(p.as_str());
        proof {
            let t = args@.take(i as int + 1);
            assert(t.drop_last() =~= args@.take(i as int));
            assert(t.last() == args@[i as int]);
            if i == 0 {
                assert(args@.take(0) =~= Seq::<Object>::empty());
            }
        }
        i = i + 1;
    }
    proof {
        reveal_strlit("]");
        assert(args@.take(args@.len() as int) =~= args@);
    }
    r.append("]");
    r
}

} // verus!
