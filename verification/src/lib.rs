//! A typed bridge between host code and an embedded, stack-based scripting
//! engine: values cross the boundary through a slot stack, host methods are
//! sorted into calling conventions, and opaque host objects carry a table of
//! named entry points.
//!
//! The engine itself is outside this library. What the library holds of it
//! is its state as plain data ([`engine`]): the value stack with the frame of
//! the native call that is running, the storage for host objects, globals,
//! table fields and the registered dispatch tables. On that data the library
//! defines, and proves, what crossing the boundary means:
//!
//! - [`is_type`], [`from_lua`], [`to_lua`]: the predicate, decoding and
//!   encoding protocols of each host type, and [`tuple`] for runs of values;
//! - [`state`]: the stack handle, with every operation of host code;
//! - [`call`], [`function`]: calls from host code into script code;
//! - [`syntax`], [`classify`], [`codegen`]: from method declarations to
//!   calling conventions and dispatch tables, [`tuple_impl`] for the typed
//!   tuple protocols;
//! - [`user_data`], [`trampoline`]: dispatch tables, and what a trampoline
//!   does between the engine's call and the host method;
//! - [`laws`]: what holds of all of these together.

pub mod call;
pub mod classify;
pub mod codegen;
pub mod engine;
pub mod error;
pub mod from_lua;
pub mod function;
pub mod is_type;
pub mod kind;
pub mod laws;
pub mod state;
pub mod syntax;
pub mod to_lua;
pub mod trampoline;
pub mod tuple;
pub mod tuple_impl;
pub mod user_data;
pub mod value;

pub use crate::function::LuaFunction;
pub use crate::is_type::{
    AnyLuaFunction, AnyUserData, Coroutine, LightUserData, NativeFunction, Table,
};
pub use crate::to_lua::RelativeValue;
pub use crate::user_data::{MetaTable, UserData};
pub use crate::value::RawFunction;
