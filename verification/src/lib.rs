//! Verified core of a binding to the LuaJIT C API: the stack and index
//! arithmetic of the `lua.h` / `lauxlib.h` helper macros, the decisions
//! those helpers make between C calls, the error type with its status
//! codes and messages, and the stack guard and state bookkeeping.
//!
//! The C calls themselves are made by the embedding program: each helper
//! here describes the call (or the next call) that it stands for.

pub mod calls;
pub mod consts;
pub mod convert;
pub mod error;
pub mod inlines;
pub mod luaref;
pub mod stack;
pub mod state;
pub mod text;

pub use crate::state::State;
