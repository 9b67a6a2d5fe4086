//! A Lua state and the builder that opens one.

use vstd::prelude::*;
use crate::error::{Error, LuaError, Result};
use crate::text::{bstr_lossy_text, push_bytes_text};

verus! {

/// Options for opening a Lua state.
pub struct StateBuilder {}

/// An open Lua state, known by the address of its `lua_State`.
pub struct State {
    raw: usize,
}

impl State {
    /// The address of the `lua_State`.
    pub closed spec fn address(self) -> usize {
        self.raw
    }

    /// The state known by this address.
    pub closed spec fn at(addr: usize) -> State {
        State { raw: addr }
    }
}

/// Whether opening a state whose `luaL_newstate` returned the address
/// `created` (0 for a null pointer) gives this result: a null pointer is
/// an allocation failure with no message; any other address is the new
/// state.
pub open spec fn opened(created: usize, r: Result<State>) -> bool {
    if created == 0 {
        r matches Err(Error::LuaError(LuaError::AllocationError(None)))
    } else {
        r matches Ok(s) && s.address() == created
    }
}

/// Law: opening fails exactly when `luaL_newstate` gave a null pointer,
/// and then with an allocation failure that carries no message; otherwise
/// the state is the one at the address given.
pub proof fn lemma_open_fails_exactly_on_null(created: usize, r: Result<State>)
    requires
        opened(created, r),
    ensures
        r is Err <==> created == 0,
        created == 0 ==> (r matches Err(Error::LuaError(LuaError::AllocationError(m))) && m is None),
        r matches Ok(s) ==> s.address() == created && s.address() != 0,
{
}

impl StateBuilder {
    /// The default options.
    pub fn new() -> (r: StateBuilder)
        ensures
            r == (StateBuilder {}),
    {
        StateBuilder {}
    }

    /// Opens a state from the result of `luaL_newstate` (its address, 0 for
    /// a null pointer). On success the caller installs the panic handler
    /// with `lua_atpanic` before the state is used.
    pub fn build(&self, created: usize) -> (r: Result<State>)
        ensures
            opened(created, r),
    {
        if created == 0 {
            Err(Error::LuaError(LuaError::AllocationError(None)))
        } else {
            Ok(State { raw: created })
        }
    }
}

impl Default for StateBuilder {
    fn default() -> (r: StateBuilder)
        ensures
            r == (StateBuilder {}),
    {
        StateBuilder::new()
    }
}

/// The default options for opening a state.
pub fn builder() -> (r: StateBuilder)
    ensures
        r == (StateBuilder {}),
{
    StateBuilder::new()
}

impl State {
    /// The default options for opening a state.
    pub fn builder() -> (r: StateBuilder)
        ensures
            r == (StateBuilder {}),
    {
        StateBuilder::new()
    }

    /// Opens a state with the default options from the result of
    /// `luaL_newstate` (its address, 0 for a null pointer).
    pub fn new(created: usize) -> (r: Result<State>)
        ensures
            opened(created, r),
    {
        StateBuilder::new().build(created)
    }

    /// Takes over the `lua_State` at this address.
    pub fn from_raw(state: usize) -> (r: State)
        ensures
            r == State::at(state),
    {
        State { raw: state }
    }

    /// Gives the `lua_State` up, returning its address; closing it is then
    /// the caller's task.
    pub fn into_raw(self) -> (r: usize)
        ensures
            r == self.address(),
    {
        self.raw
    }

    /// The address of the `lua_State`, for the calls made on it.
    pub fn as_raw(&self) -> (r: usize)
        ensures
            r == self.address(),
    {
        self.raw
    }
}

/// Law: handing a `lua_State` to a `State` and taking it back gives the
/// same address, and a state is the one known by its own address.
pub proof fn lemma_raw_round_trip(state: usize, s: State)
    ensures
        State::at(state).address() == state,
        State::at(s.address()) == s,
{
}

/// The message with which an unprotected Lua error aborts: the error
/// value's text (`Unknown` when it is not a string) inside the sentence.
pub open spec fn panic_text(err: Option<Seq<u8>>) -> Seq<char> {
    "PANIC: unprotected error in call to Lua API ("@ + match err {
        Some(b) => bstr_lossy_text(b),
        None => "Unknown"@,
    } + ")\n"@
}

/// The message of the panic raised when Lua meets an error outside any
/// protected call, given the text of the error value on top of the stack
/// (`None` when it is not a string).
pub fn panic_message(err: Option<&[u8]>) -> (r: String)
    ensures
        r@ == panic_text(
            match err {
                Some(b) => Some(b@),
                None => None,
            },
        ),
{
    let mut s = String::new();
    s.append("PANIC: unprotected error in call to Lua API (");
    match err {
        Some(bytes) => push_bytes_text(&mut s, bytes),
        None => s.append("Unknown"),
    }
    s.append(")\n");
    s
}

} // verus!
