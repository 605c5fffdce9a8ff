//! Trampolines: what stands between the engine's one way of calling native
//! code and a host method of any shape.
//!
//! The engine calls a trampoline with the receiver, if any, and the arguments
//! in the topmost slots of the stack. Entering, the trampoline reads them off
//! the stack as the method's convention says. The host method runs. Leaving,
//! the trampoline encodes what the method returned and tells the engine how
//! many slots that took.

use vstd::prelude::*;
use crate::engine::{Engine, STACK_LIMIT};
use crate::from_lua::decoded;
use crate::kind::Kind;
use crate::to_lua::Item;
use crate::tuple::{all_wf, decoded_tuple, encoded_all};
use crate::user_data::Method;
use crate::value::LuaValue;

verus! {

/// What a trampoline hands to the host method.
#[derive(Clone, Debug, PartialEq, Eq)]
pub enum Invocation {
    /// The method works on the stack handle itself. An instance method also
    /// gets its receiver.
    Raw {
        /// The receiver, for an instance method.
        receiver: Option<LuaValue>,
    },
    /// The method gets decoded arguments. An instance method also gets its
    /// receiver.
    Typed {
        /// The receiver, for an instance method.
        receiver: Option<LuaValue>,
        /// The arguments, in order.
        args: Vec<LuaValue>,
    },
}

/// What the host method hands back to its trampoline.
#[derive(Clone, Debug, PartialEq, Eq)]
pub enum Returned {
    /// The number of results that a raw method has pushed by itself.
    Count(i32),
    /// The result values of a typed method; empty where it returns nothing.
    Values(Vec<Item>),
}

/// The stack position, counted from the top, at which a trampoline starts to
/// read: as far down as the receiver and the arguments are wide.
pub open spec fn frame_base(method: Method) -> int {
    -(method.info.spec_frame_width() as int)
}

/// The position at which a trampoline reads the receiver: for a raw method
/// the bottom of the stack, for a typed one the base of its frame.
pub open spec fn receiver_at(method: Method) -> int {
    if method.info.signature is None {
        1
    } else {
        frame_base(method)
    }
}

/// The receiver that a trampoline reads.
pub open spec fn receiver_of(stack: Seq<LuaValue>, method: Method) -> Option<LuaValue> {
    decoded(stack, Kind::UserData, receiver_at(method))
}

/// The arguments that a trampoline reads: those above the receiver, or the
/// whole frame where there is no receiver; none where the method takes none.
pub open spec fn args_of(stack: Seq<LuaValue>, method: Method) -> Option<Seq<LuaValue>> {
    if method.args@.len() == 0 {
        Some(Seq::empty())
    } else {
        decoded_tuple(stack, method.args@, -(method.args@.len() as int))
    }
}

/// Whether `invocation` is what entering `method` on `stack` hands out.
pub open spec fn enters(stack: Seq<LuaValue>, method: Method, invocation: Invocation) -> bool {
    match invocation {
        Invocation::Raw { receiver } => {
            &&& method.info.signature is None
            &&& match receiver {
                Some(r) => method.info.receiver is Some && receiver_of(stack, method) == Some(r),
                None => method.info.receiver is None,
            }
        },
        Invocation::Typed { receiver, args } => {
            &&& method.info.signature is Some
            &&& args_of(stack, method) == Some(args@)
            &&& match receiver {
                Some(r) => method.info.receiver is Some && receiver_of(stack, method) == Some(r),
                None => method.info.receiver is None,
            }
        },
    }
}

/// Whether entering `method` on `stack` succeeds: the receiver, where the
/// method has one, and the arguments can be read.
pub open spec fn can_enter(stack: Seq<LuaValue>, method: Method) -> bool {
    &&& method.info.receiver is Some ==> receiver_of(stack, method) is Some
    &&& method.info.signature is Some ==> args_of(stack, method) is Some
}

/// Whether `returned` is of the form that the convention of `method` asks
/// for: a count from a raw method, from a typed one as many values as its
/// result type is wide.
pub open spec fn fits(method: Method, returned: Returned) -> bool {
    match returned {
        Returned::Count(_) => method.info.signature is None,
        Returned::Values(values) => method.info.signature is Some && values@.len()
            == method.info.spec_result_width(),
    }
}

impl Method {
    /// Returns the position at which the trampoline reads the receiver;
    /// `None` for a method without a receiver, and for one with so many
    /// arguments that no position reaches below them.
    pub fn receiver_position(&self) -> (position: Option<i32>)
        requires
            self.wf(),
        ensures
            match position {
                Some(at) => self.info.receiver is Some && at == receiver_at(*self),
                None => self.info.receiver is None || self.args@.len() >= STACK_LIMIT,
            },
    {
        if !self.info.is_method() {
            None
        } else if self.info.is_raw() {
            Some(1)
        } else if self.args.len() >= STACK_LIMIT {
            None
        } else {
            Some(-(self.args.len() as i32 + 1))
        }
    }

    /// Reads the receiver and the arguments off the stack as the method's
    /// convention says. Returns `None` where one of them cannot be read.
    pub fn enter(&self, engine: &Engine) -> (invocation: Option<Invocation>)
        requires
            engine.wf(),
            self.wf(),
        ensures
            match invocation {
                Some(invocation) => enters(engine@.stack, *self, invocation),
                None => !can_enter(engine@.stack, *self),
            },
    {
        let receiver: Option<LuaValue> = if self.info.is_method() {
            let at: i32 = match self.receiver_position() {
                Some(at) => at,
                None => {
                    return None;
                },
            };
            match engine.cast_to(Kind::UserData, at) {
                Some(r) => Some(r),
                None => {
                    return None;
                },
            }
        } else {
            None
        };
        if self.info.is_raw() {
            return Some(Invocation::Raw { receiver });
        }
        if self.args.len() == 0 {
            return Some(Invocation::Typed { receiver, args: Vec::new() });
        }
        if self.args.len() > STACK_LIMIT {
            return None;
        }
        let idx: i32 = -(self.args.len() as i32);
        match engine.cast_to_tuple(&self.args, idx) {
            Some(args) => Some(Invocation::Typed { receiver, args }),
            None => None,
        }
    }

    /// Encodes what the method returned and reports the number of result
    /// slots: for a raw method the count it gave, unchanged; for a typed one
    /// the width of its result type.
    pub fn leave(&self, engine: &mut Engine, returned: Returned) -> (count: i32)
        requires
            old(engine).wf(),
            fits(*self, returned),
            returned matches Returned::Values(values) ==> {
                &&& all_wf(values@)
                &&& old(engine)@.depth() + values@.len() <= STACK_LIMIT
                &&& old(engine)@.objects.len() + values@.len() <= usize::MAX
            },
        ensures
            final(engine).wf(),
            match returned {
                Returned::Count(n) => count == n && final(engine)@ == old(engine)@,
                Returned::Values(values) => {
                    &&& count == self.info.spec_result_width()
                    &&& final(engine)@ == encoded_all(old(engine)@, values@)
                },
            },
    {
        match returned {
            Returned::Count(n) => n,
            Returned::Values(values) => {
                let width: usize = values.len();
                engine.push_tuple(values);
                width as i32
            },
        }
    }
}

} // verus!
