//! Protected calls: host code calling script code, with a failure of the
//! script turned into a value.
//!
//! The engine runs the callee. What the library does lies on both sides of
//! that: before, it encodes the arguments above the callee; after, it takes
//! what the engine reports, settles the stack and decodes the results.

use vstd::prelude::*;
use vstd::string::*;
use crate::engine::{Engine, EngineView, STACK_LIMIT};
use crate::error::Error;
use crate::is_type::has_type;
use crate::kind::Kind;
use crate::to_lua::Item;
use crate::tuple::{all_wf, decoded_tuple, encoded_all};
use crate::value::LuaValue;

verus! {

/// How a call ended, as the engine reports it.
#[derive(Clone, Debug, PartialEq, Eq)]
pub enum CallOutcome {
    /// The callee returned these values, the first one first.
    Returned(Vec<LuaValue>),
    /// The callee raised an error with this message.
    Raised(String),
}

/// A call that is set up on the stack: the callee, and above it its arguments.
#[derive(Clone, Copy, Debug, PartialEq, Eq)]
pub struct Call {
    /// The number of argument slots above the callee.
    pub nargs: usize,
}

/// The frame of a native call that is running: what it takes to give the
/// stack back to the caller.
#[derive(Clone, Copy, Debug, PartialEq, Eq)]
pub struct Frame {
    /// The number of slots that lay below the caller's own frame.
    pub outer: usize,
}

/// The values of a call held to `count`: missing ones are `Nil`, surplus ones
/// are dropped.
pub open spec fn adjusted(values: Seq<LuaValue>, count: nat) -> Seq<LuaValue> {
    Seq::new(
        count,
        |i: int|
            if i < values.len() {
                values[i]
            } else {
                LuaValue::Nil
            },
    )
}

/// The stack below the callee of a call with `nargs` arguments.
pub open spec fn below_call(stack: Seq<LuaValue>, nargs: nat) -> Seq<LuaValue> {
    stack.take(stack.len() - nargs - 1)
}

/// The text of the error that a failed read of the results is reported with.
pub open spec fn cast_failure_text() -> Seq<char> {
    "Failed to cast output."@
}

/// Whether `result` is what a finished call hands to the host: the results
/// read as `kinds` off the top of `stack`, or the fixed error where they
/// cannot be read so.
pub open spec fn reads_results(
    result: Result<Vec<LuaValue>, Error>,
    stack: Seq<LuaValue>,
    kinds: Seq<Kind>,
) -> bool {
    if kinds.len() == 0 {
        result matches Ok(values) && values@.len() == 0
    } else {
        match decoded_tuple(stack, kinds, -(kinds.len() as int)) {
            Some(expected) => result matches Ok(values) && values@ == expected,
            None => result matches Err(Error::LuaRuntimeError(text)) && text@
                == cast_failure_text(),
        }
    }
}

impl Engine {
    /// Sets a call up: encodes the arguments, left to right, above the callee,
    /// which is the value on top of the stack. Where the top of the stack is
    /// no function, nothing is encoded and the call is refused.
    pub fn prepare_call(&mut self, args: Vec<Item>) -> (call: Result<Call, Error>)
        requires
            old(self).wf(),
            old(self)@.depth() + args@.len() <= STACK_LIMIT,
            old(self)@.objects.len() + args@.len() <= usize::MAX,
            all_wf(args@),
        ensures
            final(self).wf(),
            match call {
                Ok(call) => {
                    &&& has_type(old(self)@.stack, Kind::LuaFunction, -1)
                    &&& call.nargs == args@.len()
                    &&& final(self)@ == encoded_all(old(self)@, args@)
                    &&& final(self)@.stack.len() == old(self)@.stack.len() + args@.len()
                },
                Err(e) => {
                    &&& !has_type(old(self)@.stack, Kind::LuaFunction, -1)
                    &&& e is InvalidFunction
                    &&& final(self)@ == old(self)@
                },
            },
    {
        if !self.is_type(Kind::LuaFunction, -1) {
            return Err(Error::InvalidFunction);
        }
        let nargs: usize = args.len();
        self.push_tuple(args);
        Ok(Call { nargs })
    }

    /// Opens the frame of a native callee: from now on positions name the
    /// arguments of the call alone, the first argument at position 1.
    pub fn open_frame(&mut self, call: &Call) -> (frame: Frame)
        requires
            old(self).wf(),
            call.nargs <= old(self)@.stack.len(),
        ensures
            final(self).wf(),
            frame.outer == old(self)@.below.len(),
            final(self)@ == (EngineView {
                stack: old(self)@.stack.skip(old(self)@.stack.len() - call.nargs),
                below: old(self)@.below + old(self)@.stack.take(
                    old(self)@.stack.len() - call.nargs,
                ),
                ..old(self)@
            }),
    {
        let frame = Frame { outer: self.base };
        self.base = self.stack.len() - call.nargs;
        proof {
            assert(self@.stack =~= old(self)@.stack.skip(old(self)@.stack.len() - call.nargs));
            assert(self@.below =~= old(self)@.below + old(self)@.stack.take(
                old(self)@.stack.len() - call.nargs,
            ));
        }
        frame
    }

    /// Closes the frame of a native callee that has left `count` results on
    /// top of its frame. The frame leaves the stack, and positions name the
    /// caller's slots again, the callee topmost with no argument above it.
    /// Hands out the call in that form and its outcome: the results.
    pub fn close_frame(&mut self, frame: Frame, count: i32) -> (done: (Call, CallOutcome))
        requires
            old(self).wf(),
            frame.outer <= old(self)@.below.len(),
            0 <= count <= old(self)@.stack.len(),
        ensures
            final(self).wf(),
            done.0.nargs == 0,
            done.1 matches CallOutcome::Returned(values) && values@ == old(self)@.stack.skip(
                old(self)@.stack.len() - count,
            ),
            final(self)@ == (EngineView {
                stack: old(self)@.below.skip(frame.outer as int),
                below: old(self)@.below.take(frame.outer as int),
                ..old(self)@
            }),
    {
        let first: usize = self.stack.len() - count as usize;
        let values: Vec<LuaValue> = self.stack.split_off(first);
        self.stack.truncate(self.base);
        self.base = frame.outer;
        proof {
            assert(values@ =~= old(self)@.stack.skip(old(self)@.stack.len() - count));
            assert(self@.stack =~= old(self)@.below.skip(frame.outer as int));
            assert(self@.below =~= old(self)@.below.take(frame.outer as int));
        }
        (Call { nargs: 0 }, CallOutcome::Returned(values))
    }

    /// Replaces the callee and its arguments by `values`.
    fn settle(&mut self, nargs: usize, values: Vec<LuaValue>)
        requires
            old(self).wf(),
            old(self)@.stack.len() >= nargs + 1,
            old(self)@.depth() - nargs - 1 + values@.len() <= STACK_LIMIT,
        ensures
            final(self).wf(),
            final(self)@ == (EngineView {
                stack: below_call(old(self)@.stack, nargs as nat) + values@,
                ..old(self)@
            }),
    {
        let keep: usize = self.stack.len() - nargs - 1;
        self.stack.truncate(keep);
        let ghost kept = self.stack@;
        let ghost added = values@;
        let mut values = values;
        self.stack.append(&mut values);
        proof {
            assert(kept == old(self).stack@.take(keep as int));
            assert(self.stack@ == kept + added);
            assert(self@.stack =~= below_call(old(self)@.stack, nargs as nat) + added);
            assert(self@.below =~= old(self)@.below);
        }
    }

    /// Reads the results of a call that has returned off the top of the
    /// stack, one per kind. They stay on the stack.
    pub fn read_results(&self, kinds: &Vec<Kind>) -> (result: Result<Vec<LuaValue>, Error>)
        requires
            self.wf(),
        ensures
            reads_results(result, self@.stack, kinds@),
    {
        if kinds.len() == 0 {
            return Ok(Vec::new());
        }
        if kinds.len() > STACK_LIMIT {
            return Err(Error::LuaRuntimeError(String::from_str("Failed to cast output.")));
        }
        match self.cast_to_tuple(kinds, -(kinds.len() as i32)) {
            Some(values) => Ok(values),
            None => Err(Error::LuaRuntimeError(String::from_str("Failed to cast output."))),
        }
    }

    /// Finishes a call that the engine has run. The callee and its arguments
    /// leave the stack. Where the callee returned, its values, held to one
    /// per kind, take their place and are read as `kinds`; they stay on the
    /// stack. Where the callee raised an error, the error's text is handed
    /// out and nothing takes the place of the call.
    pub fn protected_call(&mut self, call: Call, kinds: &Vec<Kind>, outcome: CallOutcome) -> (result:
        Result<Vec<LuaValue>, Error>)
        requires
            old(self).wf(),
            old(self)@.stack.len() >= call.nargs + 1,
            old(self)@.depth() - call.nargs - 1 + kinds@.len() <= STACK_LIMIT,
        ensures
            final(self).wf(),
            match outcome {
                CallOutcome::Returned(values) => {
                    &&& final(self)@ == (EngineView {
                        stack: below_call(old(self)@.stack, call.nargs as nat) + adjusted(
                            values@,
                            kinds@.len(),
                        ),
                        ..old(self)@
                    })
                    &&& reads_results(result, final(self)@.stack, kinds@)
                },
                CallOutcome::Raised(error) => {
                    &&& final(self)@ == (EngineView {
                        stack: below_call(old(self)@.stack, call.nargs as nat),
                        ..old(self)@
                    })
                    &&& final(self)@.stack.len() == old(self)@.stack.len() - call.nargs - 1
                    &&& result == Err::<Vec<LuaValue>, Error>(Error::LuaRuntimeError(error))
                },
            },
    {
        match outcome {
            CallOutcome::Returned(values) => {
                let held = hold_to(values, kinds.len());
                self.settle(call.nargs, held);
                self.read_results(kinds)
            },
            CallOutcome::Raised(error) => {
                self.settle(call.nargs, Vec::new());
                proof {
                    assert(below_call(old(self)@.stack, call.nargs as nat) + Seq::<
                        LuaValue,
                    >::empty() =~= below_call(old(self)@.stack, call.nargs as nat));
                }
                Err(Error::LuaRuntimeError(error))
            },
        }
    }

    /// Finishes the run of a chunk of source text. Where the chunk returned,
    /// every value it returned is left on the stack. Where it raised an
    /// error, the error's text is handed out and the stack is as it was
    /// before the chunk was loaded.
    pub fn do_string(&mut self, outcome: CallOutcome) -> (result: Result<(), Error>)
        requires
            old(self).wf(),
            outcome matches CallOutcome::Returned(values) ==> old(self)@.depth() + values@.len()
                <= STACK_LIMIT,
        ensures
            final(self).wf(),
            match outcome {
                CallOutcome::Returned(values) => {
                    &&& final(self)@ == (EngineView {
                        stack: old(self)@.stack + values@,
                        ..old(self)@
                    })
                    &&& result is Ok
                },
                CallOutcome::Raised(error) => {
                    &&& final(self)@ == old(self)@
                    &&& result == Err::<(), Error>(Error::LuaRuntimeError(error))
                },
            },
    {
        match outcome {
            CallOutcome::Returned(values) => {
                let ghost added = values@;
                let mut values = values;
                self.stack.append(&mut values);
                proof {
                    assert(self@.stack =~= old(self)@.stack + added);
                    assert(self@.below =~= old(self)@.below);
                }
                Ok(())
            },
            CallOutcome::Raised(error) => Err(Error::LuaRuntimeError(error)),
        }
    }
}

/// Holds the values of a call to `count`: pads with `Nil`, drops the surplus.
pub fn hold_to(values: Vec<LuaValue>, count: usize) -> (held: Vec<LuaValue>)
    ensures
        held@ == adjusted(values@, count as nat),
{
    let mut held = values;
    if held.len() > count {
        held.truncate(count);
    }
    while held.len() < count
        invariant
            held@.len() <= count,
            held@.len() >= values@.len() || held@.len() == count,
            forall|i: int|
                0 <= i < held@.len() ==> held@[i] == if i < values@.len() {
                    values@[i]
                } else {
                    LuaValue::Nil
                },
        decreases count - held.len(),
    {
        held.push(LuaValue::Nil);
    }
    proof {
        assert(held@ =~= adjusted(values@, count as nat));
    }
    held
}

} // verus!
