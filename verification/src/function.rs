//! Callable references: a typed handle on a function that sits on the stack.

use vstd::prelude::*;
use crate::call::{adjusted, below_call, reads_results, Call, CallOutcome};
use crate::engine::{absolute, EngineView, STACK_LIMIT};
use crate::error::Error;
use crate::is_type::has_type;
use crate::kind::Kind;
use crate::state::State;
use crate::to_lua::Item;
use crate::tuple::{all_wf, encoded_all};
use crate::value::LuaValue;

verus! {

/// A function on the stack together with the types of what it returns. The
/// handle names a position; it is the caller's duty to call only while the
/// function is still there, on top of the stack.
#[derive(Clone, Debug, PartialEq, Eq)]
pub struct LuaFunction {
    /// The absolute position at which the function was found.
    pub position: i32,
    /// The conversion protocol of each result, in order.
    pub results: Vec<Kind>,
}

impl LuaFunction {
    /// Binds the function at position `idx`. Returns `None` where the
    /// position holds no function.
    pub fn from_lua(state: &State, idx: i32, results: Vec<Kind>) -> (function: Option<
        LuaFunction,
    >)
        requires
            state.wf(),
        ensures
            match function {
                Some(f) => {
                    &&& has_type(state@.stack, Kind::LuaFunction, idx as int)
                    &&& f.position == absolute(state@.stack.len() as int, idx as int)
                    &&& f.results == results
                },
                None => !has_type(state@.stack, Kind::LuaFunction, idx as int),
            },
    {
        if !state.is_kind(Kind::LuaFunction, idx) {
            return None;
        }
        let position: i32 = if idx < 0 {
            state.get_top() + idx + 1
        } else {
            idx
        };
        Some(LuaFunction { position, results })
    }

    /// The number of stack positions that a callable reference takes.
    pub fn len() -> (n: i32)
        ensures
            n == 1,
    {
        1
    }

    /// Sets a call of the function up: encodes the arguments above it. The
    /// call is refused, and nothing encoded, where the function is no longer
    /// on top of the stack.
    pub fn prepare(&self, state: &mut State, args: Vec<Item>) -> (call: Result<Call, Error>)
        requires
            old(state).wf(),
            old(state)@.depth() + args@.len() <= STACK_LIMIT,
            old(state)@.objects.len() + args@.len() <= usize::MAX,
            all_wf(args@),
        ensures
            final(state).wf(),
            final(state).is_owner() == old(state).is_owner(),
            match call {
                Ok(call) => {
                    &&& self.position == old(state)@.stack.len()
                    &&& has_type(old(state)@.stack, Kind::LuaFunction, -1)
                    &&& call.nargs == args@.len()
                    &&& final(state)@ == encoded_all(old(state)@, args@)
                },
                Err(e) => {
                    &&& e is InvalidFunction
                    &&& final(state)@ == old(state)@
                    &&& self.position != old(state)@.stack.len() || !has_type(
                        old(state)@.stack,
                        Kind::LuaFunction,
                        -1,
                    )
                },
            },
    {
        if self.position != state.get_top() {
            return Err(Error::InvalidFunction);
        }
        state.prepare_call(args)
    }

    /// Finishes a call of the function that the engine has run, reading the
    /// results as the types that the handle was bound with.
    pub fn call(&self, state: &mut State, call: Call, outcome: CallOutcome) -> (result: Result<
        Vec<LuaValue>,
        Error,
    >)
        requires
            old(state).wf(),
            old(state)@.stack.len() >= call.nargs + 1,
            old(state)@.depth() - call.nargs - 1 + self.results@.len() <= STACK_LIMIT,
        ensures
            final(state).wf(),
            final(state).is_owner() == old(state).is_owner(),
            match outcome {
                CallOutcome::Returned(values) => {
                    &&& final(state)@ == (EngineView {
                        stack: below_call(old(state)@.stack, call.nargs as nat) + adjusted(
                            values@,
                            self.results@.len(),
                        ),
                        ..old(state)@
                    })
                    &&& reads_results(result, final(state)@.stack, self.results@)
                },
                CallOutcome::Raised(error) => {
                    &&& final(state)@ == (EngineView {
                        stack: below_call(old(state)@.stack, call.nargs as nat),
                        ..old(state)@
                    })
                    &&& result == Err::<Vec<LuaValue>, Error>(Error::LuaRuntimeError(error))
                },
            },
    {
        state.protected_call(call, &self.results, outcome)
    }
}

} // verus!
