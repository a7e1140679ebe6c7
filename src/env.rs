//! The evaluation environment's exception registry.

use vstd::prelude::*;
use crate::object::Object;

verus! {

/// The part of the evaluation environment that records pending exceptions.
/// A `signal` or a `throw` stores its (tag, data) pair here and travels as
/// the id that this registry handed out, so that the error value itself
/// holds no runtime object.
pub struct Env {
    exceptions: Vec<Option<(Object, Object)>>,
}

impl View for Env {
    type V = Seq<Option<(Object, Object)>>;

    closed spec fn view(&self) -> Seq<Option<(Object, Object)>> {
        self.exceptions@
    }
}

impl Env {
    /// An environment with no recorded exception.
    pub fn new() -> (r: Env)
        ensures
            r@ == Seq::<Option<(Object, Object)>>::empty(),
    {
        Env { exceptions: Vec::new() }
    }

    /// Records a (tag, data) pair and returns the id under which it is kept.
    pub fn set_exception(&mut self, tag: Object, data: Object) -> (id: u32)
        requires
            old(self)@.len() < u32::MAX,
        ensures
            id as int == old(self)@.len(),
            final(self)@ == old(self)@.push(Some((tag, data))),
    {
        let id = self.exceptions.len() as u32;
        self.exceptions.push(Some((tag, data)));
        id
    }

    /// The (tag, data) pair recorded under `id`, if it is still held.
    pub fn exception(&self, id: u32) -> (r: Option<&(Object, Object)>)
        ensures
            match r {
                Some(p) => (id as int) < self@.len() && self@[id as int] == Some(*p),
                None => id as int >= self@.len() || self@[id as int] is None,
            },
    {
        if (id as usize) < self.exceptions.len() {
            match &self.exceptions[id as usize] {
                Some(p) => Some(p),
                None => None,
            }
        } else {
            None
        }
    }

    /// Hands out the pair recorded under `id` to the handler that caught it
    /// and frees its slot.
    pub fn take_exception(&mut self, id: u32) -> (r: Option<(Object, Object)>)
        ensures
            (id as int) < old(self)@.len() ==> r == old(self)@[id as int] && final(self)@
                == old(self)@.update(id as int, None),
            id as int >= old(self)@.len() ==> r is None && final(self)@ == old(self)@,
    {
        if (id as usize) < self.exceptions.len() {
            let slot = self.exceptions[id as usize].take();
            slot
        } else {
            None
        }
    }
}

} // verus!
