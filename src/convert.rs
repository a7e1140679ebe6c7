//! Checked conversions between tagged values and machine values.
//!
//! Each conversion that can fail reports either a [`TypeError`] (the tag is
//! wrong) or a range failure (the tag is right, the value is out of range);
//! nothing is truncated, coerced or replaced by a default.

use vstd::prelude::*;
use crate::diagnostics::{type_error_text, TypeError};
use crate::object::{has_type, printed, type_of, Object, Type};
use crate::text::{int_text, signed_text};

verus! {

/// `e` is the type error that `obj` gives against category `expect`.
pub open spec fn is_type_error(e: TypeError, expect: Type, obj: Object) -> bool {
    &&& e.expect == expect
    &&& e.actual == type_of(obj)
    &&& e.print@ == printed(obj)
}

/// A failed conversion.
#[derive(Debug, PartialEq)]
pub enum ConvertError {
    /// The value has the wrong tag.
    Type(TypeError),
    /// The value is an integer outside the range of the target type.
    Range(i64),
}

/// Message of a range failure on integer `n`.
pub open spec fn range_text(n: i64) -> Seq<char> {
    "Integer must be positive, but was "@ + int_text(n as int)
}

/// Message of a failed conversion.
pub open spec fn convert_error_text(e: ConvertError) -> Seq<char> {
    match e {
        ConvertError::Type(t) => type_error_text(t.expect, t.actual, t.print@),
        ConvertError::Range(n) => range_text(n),
    }
}

/// The message of a range failure ends with the decimal text of the
/// offending integer, and does not read as a type mismatch.
pub proof fn lemma_range_text_names_value(n: i64)
    ensures
        range_text(n).len() >= int_text(n as int).len(),
        range_text(n).subrange(range_text(n).len() - int_text(n as int).len(), range_text(n).len() as int)
            == int_text(n as int),
        range_text(n).take(8) != "expected"@,
{
    let p = "Integer must be positive, but was "@;
    let r = range_text(n);
    assert(r == p + int_text(n as int));
    assert(r.subrange(p.len() as int, r.len() as int) =~= int_text(n as int));
    reveal_strlit("Integer must be positive, but was ");
    reveal_strlit("expected");
    assert(r[0] == 'I');
    assert("expected"@[0] == 'e');
    assert(r.take(8)[0] != "expected"@[0]);
}

impl ConvertError {
    /// The message of this failure.
    pub fn render(&self) -> (r: String)
        ensures
            r@ == convert_error_text(*self),
    {
        match self {
            ConvertError::Type(t) => t.render(),
            ConvertError::Range(n) => range_message(*n),
        }
    }
}

/// Builds the message of a range failure.
pub fn range_message(n: i64) -> (r: String)
    ensures
        r@ == range_text(n),
{
    let mut r = String::from_str("Integer must be positive, but was ");
    let t = signed_text(n);
    r.append(t.as_str());
    r
}

impl Object {
    /// Whether this value passes the tag check for `ty`.
    pub fn is_type(&self, ty: Type) -> (r: bool)
        ensures
            r == has_type(*self, ty),
    {
        let integer = matches!(self, Object::Int(_));
        let string = matches!(self, Object::String(_));
        let cons = matches!(self, Object::Cons(_, _));
        let nil = matches!(self, Object::Nil);
        let symbol = matches!(self, Object::True | Object::Symbol(_));
        match ty {
            Type::Int | Type::Number => integer,
            Type::String => string,
            Type::Cons => cons,
            Type::Symbol => nil || symbol,
            Type::List => nil || cons,
            Type::Sequence => nil || cons || string,
            _ => false,
        }
    }
}

/// The tag check of a single value against category `ty`.
pub fn check_type(obj: &Object, ty: Type) -> (r: Result<&Object, TypeError>)
    ensures
        r is Ok <==> has_type(*obj, ty),
        match r {
            Ok(o) => o == obj,
            Err(e) => is_type_error(e, ty, *obj),
        },
{
    if obj.is_type(ty) {
        Ok(obj)
    } else {
        Err(TypeError::new(ty, obj))
    }
}

/// The text of a string value.
pub fn to_str(obj: &Object) -> (r: Result<&str, TypeError>)
    ensures
        match *obj {
            Object::String(s) => r is Ok && r->Ok_0@ == s@,
            _ => r is Err && is_type_error(r->Err_0, Type::String, *obj),
        },
{
    match obj {
        Object::String(s) => Ok(s.as_str()),
        _ => Err(TypeError::new(Type::String, obj)),
    }
}

/// The text of a string value, or `None` for nil.
pub fn to_opt_str(obj: &Object) -> (r: Result<Option<&str>, TypeError>)
    ensures
        match *obj {
            Object::Nil => r == Ok::<Option<&str>, TypeError>(None),
            Object::String(s) => r is Ok && r->Ok_0 is Some && r->Ok_0->Some_0@ == s@,
            _ => r is Err && is_type_error(r->Err_0, Type::String, *obj),
        },
{
    match obj {
        Object::Nil => Ok(None),
        Object::String(s) => Ok(Some(s.as_str())),
        _ => Err(TypeError::new(Type::String, obj)),
    }
}

/// The value of an integer.
pub fn to_int(obj: &Object) -> (r: Result<i64, TypeError>)
    ensures
        match *obj {
            Object::Int(n) => r == Ok::<i64, TypeError>(n),
            _ => r is Err && is_type_error(r->Err_0, Type::Int, *obj),
        },
{
    match obj {
        Object::Int(n) => Ok(*n),
        _ => Err(TypeError::new(Type::Int, obj)),
    }
}

/// The value of an integer, or `None` for nil.
pub fn to_opt_int(obj: &Object) -> (r: Result<Option<i64>, TypeError>)
    ensures
        match *obj {
            Object::Nil => r == Ok::<Option<i64>, TypeError>(None),
            Object::Int(n) => r == Ok::<Option<i64>, TypeError>(Some(n)),
            _ => r is Err && is_type_error(r->Err_0, Type::Int, *obj),
        },
{
    match obj {
        Object::Nil => Ok(None),
        Object::Int(n) => Ok(Some(*n)),
        _ => Err(TypeError::new(Type::Int, obj)),
    }
}

/// The two halves of a cons cell.
pub fn to_cons(obj: &Object) -> (r: Result<(&Object, &Object), TypeError>)
    ensures
        match *obj {
            Object::Cons(car, cdr) => r is Ok && *r->Ok_0.0 == *car && *r->Ok_0.1 == *cdr,
            _ => r is Err && is_type_error(r->Err_0, Type::Cons, *obj),
        },
{
    match obj {
        Object::Cons(car, cdr) => Ok((&**car, &**cdr)),
        _ => Err(TypeError::new(Type::Cons, obj)),
    }
}

/// A non-negative integer as a `u64`.
pub fn to_u64(obj: &Object) -> (r: Result<u64, ConvertError>)
    ensures
        r is Ok <==> (*obj is Int && obj->Int_0 >= 0),
        r is Ok ==> *obj == Object::Int(r->Ok_0 as i64) && r->Ok_0 as int == obj->Int_0 as int,
        match *obj {
            Object::Int(n) => if n >= 0 {
                r == Ok::<u64, ConvertError>(n as u64)
            } else {
                r == Err::<u64, ConvertError>(ConvertError::Range(n))
            },
            _ => r is Err && r->Err_0 is Type && is_type_error(r->Err_0->Type_0, Type::Int, *obj),
        },
{
    match obj {
        Object::Int(n) => {
            if *n >= 0 {
                Ok(*n as u64)
            } else {
                Err(ConvertError::Range(*n))
            }
        },
        _ => Err(ConvertError::Type(TypeError::new(Type::Int, obj))),
    }
}

/// Whether integer `n` fits in a `usize`.
pub open spec fn fits_usize(n: i64) -> bool {
    0 <= n <= usize::MAX
}

fn int_fits_usize(n: i64) -> (r: bool)
    ensures
        r == fits_usize(n),
{
    n >= 0 && (n as u64) <= (usize::MAX as u64)
}

/// A non-negative integer as a `usize`.
pub fn to_usize(obj: &Object) -> (r: Result<usize, ConvertError>)
    ensures
        r is Ok <==> (*obj is Int && fits_usize(obj->Int_0)),
        r is Ok ==> *obj == Object::Int(r->Ok_0 as i64) && r->Ok_0 as int == obj->Int_0 as int,
        match *obj {
            Object::Int(n) => if fits_usize(n) {
                r == Ok::<usize, ConvertError>(n as usize)
            } else {
                r == Err::<usize, ConvertError>(ConvertError::Range(n))
            },
            _ => r is Err && r->Err_0 is Type && is_type_error(r->Err_0->Type_0, Type::Int, *obj),
        },
{
    match obj {
        Object::Int(n) => {
            if int_fits_usize(*n) {
                Ok(*n as usize)
            } else {
                Err(ConvertError::Range(*n))
            }
        },
        _ => Err(ConvertError::Type(TypeError::new(Type::Int, obj))),
    }
}

/// A non-negative integer as a `usize`, or `None` for nil.
pub fn to_opt_usize(obj: &Object) -> (r: Result<Option<usize>, ConvertError>)
    ensures
        match *obj {
            Object::Nil => r == Ok::<Option<usize>, ConvertError>(None),
            Object::Int(n) => if fits_usize(n) {
                r == Ok::<Option<usize>, ConvertError>(Some(n as usize))
            } else {
                r == Err::<Option<usize>, ConvertError>(ConvertError::Range(n))
            },
            _ => r is Err && r->Err_0 is Type && is_type_error(r->Err_0->Type_0, Type::Int, *obj),
        },
{
    match obj {
        Object::Nil => Ok(None),
        _ => match to_usize(obj) {
            Ok(n) => Ok(Some(n)),
            Err(e) => Err(e),
        },
    }
}

/// The truth value of any object: everything but nil is true.
pub fn to_bool(obj: &Object) -> (r: bool)
    ensures
        r == !(*obj is Nil),
{
    !obj.is_nil()
}

/// A presence flag: `Some(())` for everything but nil.
pub fn to_flag(obj: &Object) -> (r: Option<()>)
    ensures
        r == (if *obj is Nil { None } else { Some(()) }),
{
    if obj.is_nil() {
        None
    } else {
        Some(())
    }
}

/// The canonical object of a truth value.
pub fn from_bool(b: bool) -> (r: Object)
    ensures
        r == (if b { Object::True } else { Object::Nil }),
{
    if b {
        Object::True
    } else {
        Object::Nil
    }
}

/// The object of an optional value: nil for `None`.
pub fn from_option(o: Option<Object>) -> (r: Object)
    ensures
        r == (match o {
            Some(x) => x,
            None => Object::Nil,
        }),
{
    match o {
        Some(x) => x,
        None => Object::Nil,
    }
}

/// A borrowed sequence of values that has passed the tag check for one
/// category. It holds the checked slice itself: nothing is copied, and
/// nothing is checked again on access.
pub struct TypedSlice<'a> {
    objects: &'a [Object],
    ty: Type,
}

impl<'a> View for TypedSlice<'a> {
    type V = Seq<Object>;

    closed spec fn view(&self) -> Seq<Object> {
        self.objects@
    }
}

impl<'a> TypedSlice<'a> {
    /// The category that every element has passed.
    pub closed spec fn category(&self) -> Type {
        self.ty
    }

    #[verifier::type_invariant]
    spec fn inv(&self) -> bool {
        forall|i: int| 0 <= i < self.objects@.len() ==> has_type(#[trigger] self.objects@[i], self.ty)
    }

    pub fn len(&self) -> (r: usize)
        ensures
            r == self@.len(),
    {
        self.objects.len()
    }

    /// The element at `i`, the same object that the checked slice holds.
    pub fn get(&self, i: usize) -> (r: &'a Object)
        requires
            i < self@.len(),
        ensures
            *r == self@[i as int],
            has_type(*r, self.category()),
    {
        proof { use_type_invariant(self); }
        &self.objects[i]
    }

    /// The checked slice itself.
    pub fn as_slice(&self) -> (r: &'a [Object])
        ensures
            r@ == self@,
    {
        self.objects
    }

    /// The integer at `i` of a view checked as integers.
    pub fn int_at(&self, i: usize) -> (r: i64)
        requires
            i < self@.len(),
            self.category() == Type::Int || self.category() == Type::Number,
        ensures
            self@[i as int] == Object::Int(r),
    {
        proof { use_type_invariant(self); }
        match &self.objects[i] {
            Object::Int(n) => *n,
            _ => {
                proof { assert(has_type(self.objects@[i as int], self.ty)); }
                0
            },
        }
    }
}

/// Checks every element of `slice` against category `ty` and, when all pass,
/// returns a view of the same slice as a sequence of that category. On the
/// first element that fails, returns the type error that the single-element
/// check gives for it.
pub fn try_from_slice<'a>(slice: &'a [Object], ty: Type) -> (r: Result<TypedSlice<'a>, TypeError>)
    ensures
        r is Ok <==> forall|i: int| 0 <= i < slice@.len() ==> has_type(#[trigger] slice@[i], ty),
        match r {
            Ok(v) => v@ == slice@ && v.category() == ty,
            Err(e) => exists|i: int|
                0 <= i < slice@.len() && !has_type(#[trigger] slice@[i], ty) && is_type_error(e, ty, slice@[i])
                    && forall|j: int| 0 <= j < i ==> has_type(#[trigger] slice@[j], ty),
        },
{
    let mut i: usize = 0;
    while i < slice.len()
        invariant
            0 <= i <= slice@.len(),
            forall|j: int| 0 <= j < i ==> has_type(#[trigger] slice@[j], ty),
        decreases slice@.len() - i,
    {
        match check_type(&slice[i], ty) {
            Ok(_) => {},
            Err(e) => {
                return Err(e);
            },
        }
        i = i + 1;
    }
    Ok(TypedSlice { objects: slice, ty })
}

} // verus!
