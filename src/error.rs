//! The unified evaluation error: its cause, its backtrace and its rendering.

use vstd::prelude::*;
use crate::convert::{convert_error_text, ConvertError};
use crate::diagnostics::{arg_error_text, type_error_text, ArgError, TypeError};
use crate::env::Env;
use crate::object::{display_slice, printed_args, Object};

verus! {

#[verifier::external_type_specification]
#[verifier::external_body]
pub struct ExAnyhowError(anyhow::Error);

/// Relies on the `Display` impl of anyhow::Error, which writes the message
/// of the outermost error of the chain.
#[verifier::external_body]
fn host_message(e: &anyhow::Error) -> (r: String) {
    e.to_string()
}

/// What a generic failure holds.
#[derive(Debug)]
pub enum Cause {
    /// A failure of the host, carried as it came.
    Host(anyhow::Error),
    /// A plain text message.
    Message(String),
    /// A type mismatch.
    Type(TypeError),
    /// An arity mismatch.
    Arg(ArgError),
    /// An integer out of the range of a conversion.
    Range(i64),
}

/// The message of a cause; `host` stands for what a host failure displays.
pub open spec fn cause_text(c: Cause, host: Seq<char>) -> Seq<char> {
    match c {
        Cause::Host(_) => host,
        Cause::Message(m) => m@,
        Cause::Type(t) => type_error_text(t.expect, t.actual, t.print@),
        Cause::Arg(a) => arg_error_text(a.expect, a.actual, a.name@),
        Cause::Range(n) => convert_error_text(ConvertError::Range(n)),
    }
}

impl Cause {
    /// A cause that is a plain text message.
    pub fn text(m: &str) -> (r: Cause)
        ensures
            r is Message && r->Message_0@ == m@,
    {
        Cause::Message(m.to_owned())
    }

    /// The message of this cause.
    pub fn render(&self) -> (r: String)
        ensures
            exists|h: Seq<char>| r@ == cause_text(*self, h),
            !(*self is Host) ==> r@ == cause_text(*self, Seq::empty()),
    {
        let r = match self {
            Cause::Host(e) => host_message(e),
            Cause::Message(m) => m.clone(),
            Cause::Type(t) => t.render(),
            Cause::Arg(a) => a.render(),
            Cause::Range(n) => ConvertError::Range(*n).render(),
        };
        proof {
            if *self is Host {
                assert(r@ == cause_text(*self, r@));
            } else {
                assert(r@ == cause_text(*self, Seq::empty()));
            }
        }
        r
    }
}

impl From<String> for Cause {
    fn from(m: String) -> (r: Cause) {
        Cause::Message(m)
    }
}

impl vstd::std_specs::convert::FromSpecImpl<String> for Cause {
    open spec fn obeys_from_spec() -> bool {
        true
    }

    open spec fn from_spec(m: String) -> Cause {
        Cause::Message(m)
    }
}

impl From<TypeError> for Cause {
    fn from(e: TypeError) -> (r: Cause) {
        Cause::Type(e)
    }
}

impl vstd::std_specs::convert::FromSpecImpl<TypeError> for Cause {
    open spec fn obeys_from_spec() -> bool {
        true
    }

    open spec fn from_spec(e: TypeError) -> Cause {
        Cause::Type(e)
    }
}

impl From<ArgError> for Cause {
    fn from(e: ArgError) -> (r: Cause) {
        Cause::Arg(e)
    }
}

impl vstd::std_specs::convert::FromSpecImpl<ArgError> for Cause {
    open spec fn obeys_from_spec() -> bool {
        true
    }

    open spec fn from_spec(e: ArgError) -> Cause {
        Cause::Arg(e)
    }
}

impl From<ConvertError> for Cause {
    fn from(e: ConvertError) -> (r: Cause) {
        match e {
            ConvertError::Type(t) => Cause::Type(t),
            ConvertError::Range(n) => Cause::Range(n),
        }
    }
}

impl vstd::std_specs::convert::FromSpecImpl<ConvertError> for Cause {
    open spec fn obeys_from_spec() -> bool {
        true
    }

    open spec fn from_spec(e: ConvertError) -> Cause {
        match e {
            ConvertError::Type(t) => Cause::Type(t),
            ConvertError::Range(n) => Cause::Range(n),
        }
    }
}

impl From<anyhow::Error> for Cause {
    fn from(e: anyhow::Error) -> (r: Cause) {
        Cause::Host(e)
    }
}

impl vstd::std_specs::convert::FromSpecImpl<anyhow::Error> for Cause {
    open spec fn obeys_from_spec() -> bool {
        true
    }

    open spec fn from_spec(e: anyhow::Error) -> Cause {
        Cause::Host(e)
    }
}

/// How evaluation ended abnormally.
#[derive(Debug)]
pub enum ErrorType {
    /// A Lisp `throw` with no matching catch yet; the id of its (tag, value)
    /// pair in the environment.
    Throw(u32),
    /// A Lisp `signal`; the id of its (symbol, data) pair in the environment.
    Signal(u32),
    /// A generic failure.
    Generic(Cause),
}

/// The first line of a rendered error; `host` stands for what a host
/// failure displays.
pub open spec fn cause_line(t: ErrorType, host: Seq<char>) -> Seq<char> {
    match t {
        ErrorType::Throw(_) => "No catch for throw"@,
        ErrorType::Signal(_) => "Signal"@,
        ErrorType::Generic(c) => cause_text(c, host),
    }
}

/// The frames of a backtrace, each on its own line.
pub open spec fn frame_lines(frames: Seq<Seq<char>>) -> Seq<char>
    decreases frames.len(),
{
    if frames.len() == 0 {
        seq![]
    } else {
        frame_lines(frames.drop_last()) + frames.last() + seq!['\n']
    }
}

/// A rendered error: the cause line, the frames, then the end marker, each
/// on its own line.
pub open spec fn render_lines(cause: Seq<char>, frames: Seq<Seq<char>>) -> Seq<char> {
    cause + seq!['\n'] + frame_lines(frames) + "END_BACKTRACE\n"@
}

/// One backtrace frame: the function's name, a space, the printed arguments.
pub open spec fn frame_text(name: Seq<char>, args: Seq<Object>) -> Seq<char> {
    name + seq![' '] + printed_args(args)
}

/// Frames added one after another stand in the order in which they were
/// added, after every frame that was there before.
pub proof fn lemma_frames_in_order(before: Seq<Seq<char>>, f: Seq<char>, g: Seq<char>)
    ensures
        before.push(f).push(g) == before + seq![f, g],
        before.push(f).push(g).len() == before.len() + 2,
        before.push(f).push(g).take(before.len() as int) == before,
        before.push(f).push(g)[before.len() as int] == f,
        before.push(f).push(g)[before.len() as int + 1] == g,
{
    assert(before.push(f).push(g) =~= before + seq![f, g]);
    assert(before.push(f).push(g).take(before.len() as int) =~= before);
}

/// Every rendered error ends with the line `END_BACKTRACE`: the text ends
/// with that word and a newline, and a newline stands right before it.
pub proof fn lemma_render_ends_with_marker(cause: Seq<char>, frames: Seq<Seq<char>>)
    ensures
        ({
            let r = render_lines(cause, frames);
            &&& r.len() >= 15
            &&& r.subrange(r.len() - 14, r.len() as int) == "END_BACKTRACE\n"@
            &&& r[r.len() - 15] == '\n'
        }),
{
    reveal_strlit("END_BACKTRACE\n");
    let head = cause + seq!['\n'] + frame_lines(frames);
    let r = render_lines(cause, frames);
    assert(r == head + "END_BACKTRACE\n"@);
    assert(r.subrange(head.len() as int, r.len() as int) =~= "END_BACKTRACE\n"@);
    if frames.len() == 0 {
        assert(head =~= cause + seq!['\n']);
    } else {
        assert(frame_lines(frames).last() == '\n');
    }
    assert(head.last() == '\n');
    assert(r[head.len() - 1] == head.last());
}

/// Formats a backtrace frame.
pub fn frame(name: &str, args: &[Object]) -> (r: String)
    ensures
        r@ == frame_text(name@, args@),
{
    let mut r = String::from_str(name);
    proof { reveal_strlit(" "); }
    r.append(" ");
    let a = display_slice(args);
    r.append(a.as_str());
    r
}

/// Renders a cause line and a backtrace.
pub fn render_with(cause: &str, frames: &Vec<String>) -> (r: String)
    ensures
        r@ == render_lines(cause@, frames@.map_values(|s: String| s@)),
{
    let ghost fs = frames@.map_values(|s: String| s@);
    let mut r = String::from_str(cause);
    proof { reveal_strlit("\n"); }
    r.append("\n");
    let mut i: usize = 0;
    while i < frames.len()
        invariant
            0 <= i <= frames@.len(),
            fs == frames@.map_values(|s: String| s@),
            r@ == cause@ + seq!['\n'] + frame_lines(fs.take(i as int)),
        decreases frames@.len() - i,
    {
        r.append(frames[i].as_str());
        proof { reveal_strlit("\n"); }
        r.append("\n");
        proof {
            assert(fs[i as int] == frames@[i as int]@);
            assert(fs.take(i as int + 1).drop_last() =~= fs.take(i as int));
        }
        i = i + 1;
    }
    proof { assert(fs.take(frames@.len() as int) =~= fs); }
    r.append("END_BACKTRACE\n");
    r
}

/// The unified failure of a native operation: a cause, and the frames of
/// the native calls that it has crossed, innermost first.
#[derive(Debug)]
pub struct EvalError {
    pub backtrace: Vec<String>,
    pub error: ErrorType,
}

impl EvalError {
    /// The backtrace frames, innermost first.
    pub open spec fn trace(&self) -> Seq<Seq<char>> {
        self.backtrace@.map_values(|s: String| s@)
    }

    /// A generic failure of the host, with no frame.
    pub fn new_error(error: anyhow::Error) -> (r: Self)
        ensures
            r.error == ErrorType::Generic(Cause::Host(error)),
            r.trace() == Seq::<Seq<char>>::empty(),
    {
        EvalError::new(Cause::Host(error))
    }

    /// A generic failure with no frame.
    pub fn new(cause: Cause) -> (r: Self)
        ensures
            r.error == ErrorType::Generic(cause),
            r.trace() == Seq::<Seq<char>>::empty(),
    {
        let r = EvalError { backtrace: Vec::new(), error: ErrorType::Generic(cause) };
        assert(r.trace() =~= Seq::<Seq<char>>::empty());
        r
    }

    /// A Lisp `signal` of `error_symbol` with `data`, recorded in `env`.
    pub fn signal(error_symbol: Object, data: Object, env: &mut Env) -> (r: Self)
        requires
            old(env)@.len() < u32::MAX,
        ensures
            final(env)@ == old(env)@.push(Some((error_symbol, data))),
            r.error == ErrorType::Signal(old(env)@.len() as u32),
            r.trace() == Seq::<Seq<char>>::empty(),
    {
        let id = env.set_exception(error_symbol, data);
        let r = EvalError { backtrace: Vec::new(), error: ErrorType::Signal(id) };
        assert(r.trace() =~= Seq::<Seq<char>>::empty());
        r
    }

    /// A Lisp `throw` to `tag` with `data`, recorded in `env`.
    pub fn throw(tag: Object, data: Object, env: &mut Env) -> (r: Self)
        requires
            old(env)@.len() < u32::MAX,
        ensures
            final(env)@ == old(env)@.push(Some((tag, data))),
            r.error == ErrorType::Throw(old(env)@.len() as u32),
            r.trace() == Seq::<Seq<char>>::empty(),
    {
        let id = env.set_exception(tag, data);
        let r = EvalError { backtrace: Vec::new(), error: ErrorType::Throw(id) };
        assert(r.trace() =~= Seq::<Seq<char>>::empty());
        r
    }

    /// A host failure with one frame for the call of `name` on `args`.
    pub fn with_trace(error: anyhow::Error, name: &str, args: &[Object]) -> (r: Self)
        ensures
            r.error == ErrorType::Generic(Cause::Host(error)),
            r.trace() == seq![frame_text(name@, args@)],
    {
        let f = frame(name, args);
        let r = EvalError { backtrace: vec![f], error: ErrorType::Generic(Cause::Host(error)) };
        assert(r.trace() =~= seq![frame_text(name@, args@)]);
        r
    }

    /// The same error with one more frame, for the call of `name` on `args`,
    /// after the frames it had.
    pub fn add_trace(self, name: &str, args: &[Object]) -> (r: Self)
        ensures
            r.error == self.error,
            r.trace() == self.trace().push(frame_text(name@, args@)),
    {
        let mut e = self;
        let f = frame(name, args);
        e.backtrace.push(f);
        assert(e.trace() =~= self.trace().push(frame_text(name@, args@)));
        e
    }

    /// The backtrace frames, innermost first.
    pub fn backtrace(&self) -> (r: &Vec<String>)
        ensures
            r@.map_values(|s: String| s@) == self.trace(),
    {
        &self.backtrace
    }

    /// The rendered error: its cause line, its frames, then the line
    /// `END_BACKTRACE`.
    pub fn render(&self) -> (r: String)
        ensures
            exists|h: Seq<char>| r@ == render_lines(cause_line(self.error, h), self.trace()),
            !(self.error matches ErrorType::Generic(Cause::Host(_))) ==> r@ == render_lines(
                cause_line(self.error, Seq::empty()),
                self.trace(),
            ),
    {
        let c = match &self.error {
            ErrorType::Generic(cause) => {
                let c = cause.render();
                proof {
                    let h = choose|h: Seq<char>| c@ == cause_text(*cause, h);
                    assert(c@ == cause_line(self.error, h));
                }
                c
            },
            ErrorType::Throw(_) => {
                let c = String::from_str("No catch for throw");
                assert(c@ == cause_line(self.error, Seq::empty()));
                c
            },
            ErrorType::Signal(_) => {
                let c = String::from_str("Signal");
                assert(c@ == cause_line(self.error, Seq::empty()));
                c
            },
        };
        let r = render_with(c.as_str(), &self.backtrace);
        proof {
            let h = choose|h: Seq<char>| c@ == cause_line(self.error, h);
            assert(r@ == render_lines(cause_line(self.error, h), self.trace()));
        }
        r
    }
}

} // verus!
