//! Numeric constants of the Lua 5.1 / LuaJIT C API (`lua.h`, `luajit.h`).

use libc::c_int;
use vstd::prelude::*;

verus! {

/// Pseudo-index of the registry table.
pub const LUA_REGISTRYINDEX: c_int = -10000;
/// Pseudo-index of the environment of the running C function.
pub const LUA_ENVIRONINDEX: c_int = -10001;
/// Pseudo-index of the table of globals.
pub const LUA_GLOBALSINDEX: c_int = -10002;

/// `nresults` value asking `lua_pcall` for all results.
pub const LUA_MULTRET: c_int = -1;

/// Type code of an acceptable index that holds no value.
pub const LUA_TNONE: c_int = -1;
pub const LUA_TNIL: c_int = 0;
pub const LUA_TBOOLEAN: c_int = 1;
pub const LUA_TLIGHTUSERDATA: c_int = 2;
pub const LUA_TNUMBER: c_int = 3;
pub const LUA_TSTRING: c_int = 4;
pub const LUA_TTABLE: c_int = 5;
pub const LUA_TFUNCTION: c_int = 6;
pub const LUA_TUSERDATA: c_int = 7;
pub const LUA_TTHREAD: c_int = 8;

/// Status codes returned by loading and calling.
pub const LUA_YIELD: c_int = 1;
pub const LUA_ERRRUN: c_int = 2;
pub const LUA_ERRSYNTAX: c_int = 3;
pub const LUA_ERRMEM: c_int = 4;
pub const LUA_ERRERR: c_int = 5;
/// Extra status code of `lauxlib.h` for a file that cannot be opened or read.
pub const LUA_ERRFILE: c_int = 6;

/// `lua_gc` option that asks for the memory in use, in kilobytes.
pub const LUA_GCCOUNT: c_int = 3;

/// `luaJIT_setmode` selector of the whole JIT engine.
pub const LUAJIT_MODE_ENGINE: c_int = 0;
/// `luaJIT_setmode` flag that turns a mode on.
pub const LUAJIT_MODE_ON: c_int = 0x0100;

} // verus!
