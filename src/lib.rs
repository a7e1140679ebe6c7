//! Error model and tagged-value conversion layer of a small Lisp runtime.
//!
//! Every abnormal end of evaluation is an [`EvalError`]: a generic failure,
//! a Lisp `signal`, or a Lisp `throw`, together with the call frames that the
//! error has crossed. Native functions receive their arguments as tagged
//! [`Object`]s and convert them to machine values through the checked
//! conversions of the `convert` module.

pub mod text;
pub mod object;
pub mod env;
pub mod diagnostics;
pub mod convert;
pub mod error;

pub use convert::{
    check_type, from_bool, from_option, to_bool, to_cons, to_flag, to_int, to_opt_int, to_opt_str,
    to_opt_usize, to_str, to_u64, to_usize, try_from_slice, ConvertError, TypedSlice,
};
pub use diagnostics::{ArgError, TypeError};
pub use env::Env;
pub use error::{Cause, ErrorType, EvalError};
pub use object::{display_slice, Object, Type};
