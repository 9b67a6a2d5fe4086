//! Calls into the Lua C API, described as values.
//!
//! A helper of `lua.h` / `lauxlib.h` expands to one or more C calls with
//! arguments that it computes. Here each such call is a value of
//! [`ApiCall`]; the embedding program performs it on its `lua_State`.
//! Arguments that are C function pointers or NUL-terminated names are
//! the caller's own and are passed along by the embedding program.

use libc::c_int;
use vstd::prelude::*;

verus! {

/// One call into the Lua C API.
#[derive(Debug, PartialEq, Eq)]
pub enum ApiCall {
    /// `lua_settop(L, index)`
    SetTop { index: c_int },
    /// `lua_createtable(L, narr, nrec)`
    CreateTable { narr: c_int, nrec: c_int },
    /// `lua_pushcclosure(L, f, nup)`, with the caller's `f`
    PushCClosure { nup: c_int },
    /// `lua_setfield(L, index, k)`, with the caller's key `k`
    SetField { index: c_int },
    /// `lua_getfield(L, index, k)`, with the caller's key `k`
    GetField { index: c_int },
    /// `lua_pushvalue(L, index)`
    PushValue { index: c_int },
    /// `lua_pushlstring(L, bytes, len)`
    PushLString { bytes: Vec<u8> },
    /// `lua_objlen(L, index)`
    ObjLen { index: c_int },
    /// `lua_tolstring(L, index, NULL)`
    ToLString { index: c_int },
    /// `lua_gc(L, what, data)`
    Gc { what: c_int, data: c_int },
    /// `luaL_argerror(L, numarg, extramsg)`, with the caller's message
    ArgError { numarg: c_int },
    /// `luaL_checklstring(L, arg, NULL)`
    CheckLString { arg: c_int },
    /// `luaL_optlstring(L, arg, d, NULL)`, with the caller's default `d`
    OptLString { arg: c_int },
    /// `luaL_checkinteger(L, arg)`
    CheckInteger { arg: c_int },
    /// `luaL_optinteger(L, arg, default)`
    OptInteger { arg: c_int, default: isize },
    /// `luaL_loadfile(L, filename)`, with the caller's file name
    LoadFile,
    /// `luaL_loadstring(L, s)`, with the caller's string
    LoadString,
    /// `luaL_loadbuffer(L, bytes, len, chunkname)`; `chunkname` ends in NUL
    LoadBuffer { bytes: Vec<u8>, chunkname: Vec<u8> },
    /// `lua_pcall(L, nargs, nresults, errfunc)`
    PCall { nargs: c_int, nresults: c_int, errfunc: c_int },
    /// `luaL_ref(L, table)`
    Ref { table: c_int },
    /// `luaL_unref(L, table, reference)`
    Unref { table: c_int, reference: c_int },
    /// `lua_rawgeti(L, index, n)`
    RawGetI { index: c_int, n: c_int },
    /// `lua_error(L)`
    Error,
}

/// What a two-step helper does after its first C call.
#[derive(Debug, PartialEq, Eq)]
pub enum Continue {
    /// The helper ends with this result; the second call is not made.
    Done(c_int),
    /// The helper makes this call; its status decides the result.
    Then(ApiCall),
}

} // verus!
