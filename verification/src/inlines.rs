//! The helper macros of `lua.h` and `lauxlib.h`: the index arithmetic,
//! the C calls each helper stands for, and the decisions that some of
//! them make between two calls.

use libc::{c_char, c_int, c_long};
use vstd::prelude::*;
use crate::calls::{ApiCall, Continue};
use crate::consts::{
    LUA_GCCOUNT, LUA_GLOBALSINDEX, LUA_MULTRET, LUA_REGISTRYINDEX, LUA_TBOOLEAN, LUA_TFUNCTION,
    LUA_TLIGHTUSERDATA, LUA_TNIL, LUA_TNONE, LUA_TTABLE, LUA_TTHREAD,
};

verus! {

// ---------------------------------------------------------------------
// Index arithmetic
// ---------------------------------------------------------------------

/// Pseudo-index of the `i`-th upvalue of the running C function.
pub fn lua_upvalueindex(i: c_int) -> (r: c_int)
    requires
        LUA_GLOBALSINDEX - i >= i32::MIN,
    ensures
        r == LUA_GLOBALSINDEX - i,
{
    LUA_GLOBALSINDEX - i
}

/// Pops `n` values: sets the top to the relative index `-n - 1`.
pub fn lua_pop(n: c_int) -> (r: ApiCall)
    requires
        n > i32::MIN,
    ensures
        r == (ApiCall::SetTop { index: (-n - 1) as c_int }),
{
    ApiCall::SetTop { index: -n - 1 }
}

// ---------------------------------------------------------------------
// One-call helpers
// ---------------------------------------------------------------------

/// Pushes a new empty table.
pub fn lua_newtable() -> (r: ApiCall)
    ensures
        r == (ApiCall::CreateTable { narr: 0, nrec: 0 }),
{
    ApiCall::CreateTable { narr: 0, nrec: 0 }
}

/// Pushes a C function with no upvalues.
pub fn lua_pushcfunction() -> (r: ApiCall)
    ensures
        r == (ApiCall::PushCClosure { nup: 0 }),
{
    ApiCall::PushCClosure { nup: 0 }
}

/// Sets the C function as the global of the given name: pushes it, then
/// stores the top of the stack into the table of globals.
pub fn lua_register() -> (r: Vec<ApiCall>)
    ensures
        r@ == seq![ApiCall::PushCClosure { nup: 0 }, ApiCall::SetField { index: LUA_GLOBALSINDEX }],
{
    let mut calls: Vec<ApiCall> = Vec::new();
    calls.push(lua_pushcfunction());
    calls.push(lua_setglobal());
    calls
}

/// Length of the value at index `i` (the Lua 5.0 name of `lua_objlen`).
pub fn lua_strlen(i: c_int) -> (r: ApiCall)
    ensures
        r == (ApiCall::ObjLen { index: i }),
{
    ApiCall::ObjLen { index: i }
}

/// Pushes a copy of the given bytes as a Lua string.
pub fn lua_pushslice(s: &[u8]) -> (r: ApiCall)
    ensures
        r matches ApiCall::PushLString { bytes } && bytes@ == s@,
{
    ApiCall::PushLString { bytes: vstd::slice::slice_to_vec(s) }
}

/// Pops a value and stores it as the global of the caller's name.
pub fn lua_setglobal() -> (r: ApiCall)
    ensures
        r == (ApiCall::SetField { index: LUA_GLOBALSINDEX }),
{
    ApiCall::SetField { index: LUA_GLOBALSINDEX }
}

/// Pushes the global of the caller's name.
pub fn lua_getglobal() -> (r: ApiCall)
    ensures
        r == (ApiCall::GetField { index: LUA_GLOBALSINDEX }),
{
    ApiCall::GetField { index: LUA_GLOBALSINDEX }
}

/// Converts the value at index `i` to a string, without its length.
pub fn lua_tostring(i: c_int) -> (r: ApiCall)
    ensures
        r == (ApiCall::ToLString { index: i }),
{
    ApiCall::ToLString { index: i }
}

/// Pushes the registry table.
pub fn lua_getregistry() -> (r: ApiCall)
    ensures
        r == (ApiCall::PushValue { index: LUA_REGISTRYINDEX }),
{
    ApiCall::PushValue { index: LUA_REGISTRYINDEX }
}

/// Asks for the memory in use, in kilobytes.
pub fn lua_getgccount() -> (r: ApiCall)
    ensures
        r == (ApiCall::Gc { what: LUA_GCCOUNT, data: 0 }),
{
    ApiCall::Gc { what: LUA_GCCOUNT, data: 0 }
}

/// Length of the table at index `i`; its result goes through [`length_to_int`].
pub fn luaL_getn(i: c_int) -> (r: ApiCall)
    ensures
        r == (ApiCall::ObjLen { index: i }),
{
    ApiCall::ObjLen { index: i }
}

/// Pushes the metatable registered under the caller's name.
pub fn luaL_getmetatable() -> (r: ApiCall)
    ensures
        r == (ApiCall::GetField { index: LUA_REGISTRYINDEX }),
{
    ApiCall::GetField { index: LUA_REGISTRYINDEX }
}

/// Checks that argument `n` is a string (its length is not asked for).
pub fn luaL_checkstring(n: c_int) -> (r: ApiCall)
    ensures
        r == (ApiCall::CheckLString { arg: n }),
{
    ApiCall::CheckLString { arg: n }
}

/// Argument `n` as a string, or the caller's default when it is absent.
pub fn luaL_optstring(n: c_int) -> (r: ApiCall)
    ensures
        r == (ApiCall::OptLString { arg: n }),
{
    ApiCall::OptLString { arg: n }
}

/// Checks that argument `n` is an integer; the result goes through [`integer_to_int`].
pub fn luaL_checkint(n: c_int) -> (r: ApiCall)
    ensures
        r == (ApiCall::CheckInteger { arg: n }),
{
    ApiCall::CheckInteger { arg: n }
}

/// Argument `n` as an integer, default `d`; the result goes through [`integer_to_int`].
pub fn luaL_optint(n: c_int, d: c_int) -> (r: ApiCall)
    ensures
        r == (ApiCall::OptInteger { arg: n, default: d as isize }),
{
    ApiCall::OptInteger { arg: n, default: d as isize }
}

/// Checks that argument `n` is an integer; the result goes through [`integer_to_long`].
pub fn luaL_checklong(n: c_int) -> (r: ApiCall)
    ensures
        r == (ApiCall::CheckInteger { arg: n }),
{
    ApiCall::CheckInteger { arg: n }
}

/// Argument `n` as an integer, default `d`; the result goes through [`integer_to_long`].
pub fn luaL_optlong(n: c_int, d: c_long) -> (r: ApiCall)
    ensures
        r == (ApiCall::OptInteger { arg: n, default: d as isize }),
{
    ApiCall::OptInteger { arg: n, default: d as isize }
}

/// A `lua_Integer` narrowed to a C `int`, as `luaL_checkint` and
/// `luaL_optint` return it (the high bits are dropped).
pub fn integer_to_int(v: isize) -> (r: c_int)
    ensures
        r == v as i32,
{
    v as c_int
}

/// A `lua_Integer` as a C `long`, as `luaL_checklong` and `luaL_optlong` return it.
pub fn integer_to_long(v: isize) -> (r: c_long)
    ensures
        r == v as c_long,
{
    v as c_long
}

/// A length from `lua_objlen` as a C `int`, as `luaL_getn` returns it
/// (the high bits are dropped).
pub fn length_to_int(len: usize) -> (r: c_int)
    ensures
        r == len as i32,
{
    len as c_int
}

/// Releases `reference` from the registry.
pub fn lua_unref(reference: c_int) -> (r: ApiCall)
    ensures
        r == (ApiCall::Unref { table: LUA_REGISTRYINDEX, reference }),
{
    ApiCall::Unref { table: LUA_REGISTRYINDEX, reference }
}

/// Pushes the value held in the registry under `reference`.
pub fn lua_getref(reference: c_int) -> (r: ApiCall)
    ensures
        r == (ApiCall::RawGetI { index: LUA_REGISTRYINDEX, n: reference }),
{
    ApiCall::RawGetI { index: LUA_REGISTRYINDEX, n: reference }
}

// ---------------------------------------------------------------------
// Type tests on the code that `lua_type` returned
// ---------------------------------------------------------------------

/// The value is a function (C or Lua).
pub fn lua_isfunction(type_code: c_int) -> (r: bool)
    ensures
        r == (type_code == LUA_TFUNCTION),
{
    type_code == LUA_TFUNCTION
}

/// The value is a table.
pub fn lua_istable(type_code: c_int) -> (r: bool)
    ensures
        r == (type_code == LUA_TTABLE),
{
    type_code == LUA_TTABLE
}

/// The value is a light userdata.
pub fn lua_islightuserdata(type_code: c_int) -> (r: bool)
    ensures
        r == (type_code == LUA_TLIGHTUSERDATA),
{
    type_code == LUA_TLIGHTUSERDATA
}

/// The value is `nil`.
pub fn lua_isnil(type_code: c_int) -> (r: bool)
    ensures
        r == (type_code == LUA_TNIL),
{
    type_code == LUA_TNIL
}

/// The value is a boolean.
pub fn lua_isboolean(type_code: c_int) -> (r: bool)
    ensures
        r == (type_code == LUA_TBOOLEAN),
{
    type_code == LUA_TBOOLEAN
}

/// The value is a thread.
pub fn lua_isthread(type_code: c_int) -> (r: bool)
    ensures
        r == (type_code == LUA_TTHREAD),
{
    type_code == LUA_TTHREAD
}

/// The index is acceptable but holds no value.
pub fn lua_isnone(type_code: c_int) -> (r: bool)
    ensures
        r == (type_code == LUA_TNONE),
{
    type_code == LUA_TNONE
}

/// The index holds no value or holds `nil`.
pub fn lua_isnoneornil(type_code: c_int) -> (r: bool)
    ensures
        r == (type_code <= 0),
{
    type_code <= 0
}

/// Whether a value of this type code counts as absent for the `luaL_opt*`
/// helpers.
pub open spec fn is_none_or_nil(type_code: int) -> bool {
    type_code <= 0
}

/// Law: for every type code that `lua_type` can return (`LUA_TNONE` and
/// above), "none or nil" means "none" or "nil".
pub proof fn lemma_noneornil_is_none_or_nil(type_code: c_int)
    requires
        type_code >= LUA_TNONE,
    ensures
        (type_code <= 0) == (type_code == LUA_TNONE || type_code == LUA_TNIL),
{
}

/// Law: the type tests exclude one another: a type code passes at most
/// one of `lua_isnone`, `lua_isnil`, `lua_isboolean`,
/// `lua_islightuserdata`, `lua_istable`, `lua_isfunction`, `lua_isthread`.
pub proof fn lemma_type_tests_exclusive(type_code: c_int)
    ensures
        ({
            let tests = seq![
                type_code == LUA_TNONE,
                type_code == LUA_TNIL,
                type_code == LUA_TBOOLEAN,
                type_code == LUA_TLIGHTUSERDATA,
                type_code == LUA_TTABLE,
                type_code == LUA_TFUNCTION,
                type_code == LUA_TTHREAD,
            ];
            forall|i: int, j: int| 0 <= i < j < 7 && #[trigger] tests[i] ==> !#[trigger] tests[j]
        }),
{
}

/// Law: the pseudo-indices of distinct upvalues are distinct, they
/// decrease as the upvalue number grows, and for upvalue numbers from 1
/// they lie below the pseudo-indices of the globals, the environment and
/// the registry.
pub proof fn lemma_upvalueindex_distinct(i: c_int, j: c_int)
    requires
        LUA_GLOBALSINDEX - i >= i32::MIN,
        LUA_GLOBALSINDEX - j >= i32::MIN,
        1 <= i < j,
    ensures
        LUA_GLOBALSINDEX - j < LUA_GLOBALSINDEX - i < LUA_GLOBALSINDEX,
        LUA_GLOBALSINDEX < crate::consts::LUA_ENVIRONINDEX < LUA_REGISTRYINDEX,
{
}

// ---------------------------------------------------------------------
// Two-step helpers
// ---------------------------------------------------------------------

/// Result of a helper of the form `first != 0 || second != 0`: 1 when
/// either step gave a non-zero status, else 0.
pub open spec fn either_failed(first: int, second: int) -> int {
    if first != 0 || second != 0 { 1 } else { 0 }
}

/// The result flag that a non-zero status gives: 1, else 0.
pub fn status_flag(status: c_int) -> (r: c_int)
    ensures
        r == (if status != 0 { 1int } else { 0int }),
{
    if status != 0 { 1 } else { 0 }
}

/// What `luaL_argcheck` does after testing its condition: a true
/// condition ends the check with 1; a false one raises the argument error.
pub open spec fn argcheck_step(cond: int, numarg: c_int) -> Continue {
    if cond != 0 {
        Continue::Done(1)
    } else {
        Continue::Then(ApiCall::ArgError { numarg })
    }
}

/// First step of `luaL_argcheck`: a true condition ends the check with 1;
/// a false one raises the argument error, whose status then goes through
/// [`status_flag`].
pub fn luaL_argcheck(cond: c_int, numarg: c_int) -> (r: Continue)
    ensures
        r == argcheck_step(cond as int, numarg),
        cond != 0 ==> r == Continue::Done(1),
        cond == 0 ==> r == Continue::Then(ApiCall::ArgError { numarg }),
{
    if cond != 0 {
        Continue::Done(1)
    } else {
        Continue::Then(ApiCall::ArgError { numarg })
    }
}

/// The first call of `luaL_dofile`: loads the caller's file.
pub fn luaL_dofile() -> (r: ApiCall)
    ensures
        r == ApiCall::LoadFile,
{
    ApiCall::LoadFile
}

/// The first call of `luaL_dostring`: loads the caller's string.
pub fn luaL_dostring() -> (r: ApiCall)
    ensures
        r == ApiCall::LoadString,
{
    ApiCall::LoadString
}

/// The chunk name under which byte slices are loaded: `slice`, NUL-terminated.
pub open spec fn slice_chunkname() -> Seq<u8> {
    seq![115u8, 108u8, 105u8, 99u8, 101u8, 0u8]
}

/// Loads the bytes as a chunk named `slice`, without running it.
pub fn luaL_loadslice(s: &[u8]) -> (r: ApiCall)
    ensures
        r matches ApiCall::LoadBuffer { bytes, chunkname } && bytes@ == s@ && chunkname@
            == slice_chunkname(),
{
    let chunkname: Vec<u8> = vec![115u8, 108u8, 105u8, 99u8, 101u8, 0u8];
    ApiCall::LoadBuffer { bytes: vstd::slice::slice_to_vec(s), chunkname }
}

/// The first call of `luaL_doslice`: loads the bytes as `luaL_loadslice` does.
pub fn luaL_doslice(s: &[u8]) -> (r: ApiCall)
    ensures
        r matches ApiCall::LoadBuffer { bytes, chunkname } && bytes@ == s@ && chunkname@
            == slice_chunkname(),
{
    luaL_loadslice(s)
}

/// The call that runs a loaded chunk: no arguments, all results, no
/// message handler.
pub open spec fn chunk_call() -> ApiCall {
    ApiCall::PCall { nargs: 0, nresults: LUA_MULTRET, errfunc: 0 }
}

/// What running a chunk does after the load: a failed load ends with 1; a
/// successful one calls the chunk.
pub open spec fn chunk_step(load_status: int) -> Continue {
    if load_status != 0 {
        Continue::Done(1)
    } else {
        Continue::Then(chunk_call())
    }
}

/// Second step of `luaL_dofile`, `luaL_dostring` and `luaL_doslice`, given
/// the status of the load: a failed load ends the helper with 1; a
/// successful one calls the chunk with no arguments, asking for all its
/// results, and the call's status then goes through [`status_flag`].
pub fn chunk_after_load(load_status: c_int) -> (r: Continue)
    ensures
        r == chunk_step(load_status as int),
        load_status != 0 ==> r == Continue::Done(1),
        load_status == 0 ==> r == Continue::Then(
            ApiCall::PCall { nargs: 0, nresults: -1i32, errfunc: 0 },
        ),
{
    if load_status != 0 {
        Continue::Done(1)
    } else {
        Continue::Then(ApiCall::PCall { nargs: 0, nresults: LUA_MULTRET, errfunc: 0 })
    }
}

/// The result of a two-step helper: `Done(v)` gives `v`; `Then(_)` gives
/// the flag of the status of the second call.
pub open spec fn two_step_result(step: Continue, second: int) -> int {
    match step {
        Continue::Done(v) => v as int,
        Continue::Then(_) => if second != 0 { 1 } else { 0 },
    }
}

/// Law: running a chunk (`luaL_dofile`, `luaL_dostring`, `luaL_doslice`)
/// gives 1 exactly when the load failed or the call failed; the chunk is
/// called only after a successful load, and after a failed load the
/// status a call would have had does not matter.
pub proof fn lemma_chunk_result(load_status: c_int, call_status: c_int)
    ensures
        two_step_result(chunk_step(load_status as int), call_status as int) == either_failed(
            load_status as int,
            call_status as int,
        ),
        (chunk_step(load_status as int) is Then) == (load_status == 0),
        load_status != 0 ==> two_step_result(chunk_step(load_status as int), call_status as int)
            == 1,
{
}

/// Law: `luaL_argcheck` gives 1 exactly when the condition holds or the
/// argument error reports a non-zero status, and raises the argument error
/// only when the condition fails.
pub proof fn lemma_argcheck_result(cond: c_int, numarg: c_int, err_status: c_int)
    ensures
        two_step_result(argcheck_step(cond as int, numarg), err_status as int) == either_failed(
            cond as int,
            err_status as int,
        ),
        (argcheck_step(cond as int, numarg) is Then) == (cond == 0),
{
}

/// Law: an argument counts as absent for `luaL_opt` exactly when its type
/// code is not above zero, that is, for `LUA_TNONE` (-1) and `LUA_TNIL`
/// (0) among the codes `lua_type` returns; a boolean, number, string,
/// table or any other present value (codes 1 to 8) is read by the reader.
pub proof fn lemma_opt_absent_exactly_none_or_nil(type_code: c_int)
    ensures
        is_none_or_nil(type_code as int) <==> type_code <= 0,
        type_code >= -1 ==> (is_none_or_nil(type_code as int) <==> (type_code == -1
            || type_code == 0)),
        1 <= type_code <= 8 ==> !is_none_or_nil(type_code as int),
{
}

/// Law: `luaL_argcheck` ends with 1, raising nothing, on every non-zero
/// condition; on a zero condition it raises the argument error against the
/// very argument number it was given, for every argument number.
pub proof fn lemma_argcheck_blames_given_argument(cond: c_int, numarg: c_int)
    ensures
        cond != 0 ==> argcheck_step(cond as int, numarg) == Continue::Done(1),
        cond == 0 ==> (argcheck_step(cond as int, numarg) matches Continue::Then(
            ApiCall::ArgError { numarg: m },
        ) && m == numarg),
        forall|n: c_int, k: c_int|
            argcheck_step(0, n) == argcheck_step(0, k) ==> n == k,
{
    assert forall|n: c_int, k: c_int| argcheck_step(0, n) == argcheck_step(0, k) implies n == k by {
        assert(argcheck_step(0, n) == Continue::Then(ApiCall::ArgError { numarg: n }));
        assert(argcheck_step(0, k) == Continue::Then(ApiCall::ArgError { numarg: k }));
    }
}

/// Law: after a failed load (any non-zero status) a chunk helper ends with
/// 1 and calls nothing; after a successful load it calls the chunk with no
/// arguments, all results (-1) and no message handler.
pub proof fn lemma_chunk_step_calls_only_after_success(load_status: c_int)
    ensures
        load_status != 0 ==> chunk_step(load_status as int) == Continue::Done(1),
        load_status == 0 ==> chunk_step(load_status as int) == Continue::Then(
            ApiCall::PCall { nargs: 0, nresults: -1i32, errfunc: 0 },
        ),
{
}

/// Optional argument: `d` when the argument's type code says none or nil,
/// else what `f` (which reads the argument) returns.
pub fn luaL_opt<F, R>(type_code: c_int, f: F, d: R) -> (r: R) where F: FnOnce() -> R
    requires
        type_code > 0 ==> f.requires(()),
    ensures
        is_none_or_nil(type_code as int) ==> r == d,
        !is_none_or_nil(type_code as int) ==> f.ensures((), r),
        type_code <= 0 ==> r == d,
        type_code > 0 ==> f.ensures((), r),
{
    if lua_isnoneornil(type_code) {
        d
    } else {
        f()
    }
}

// ---------------------------------------------------------------------
// String buffers
// ---------------------------------------------------------------------

/// What `luaL_addchar` does to a buffer whose write position is `pos`
/// bytes into its array of `capacity` bytes.
#[derive(Debug, Clone, Copy, PartialEq, Eq)]
pub struct AddChar {
    /// `luaL_prepbuffer` is called first (the array is full).
    pub flush: bool,
    /// Offset at which the byte is stored: the write position read before
    /// any flush.
    pub write_at: usize,
    /// The byte stored: the character truncated to a C `char`.
    pub byte: c_char,
    /// The write position afterwards, one past the stored byte.
    pub next: usize,
}

/// Appends a character to a buffer: reads the write position, flushes the
/// array first when that position has reached its end, then stores the
/// character's low byte at the position read and sets the position one
/// past it. On a full array the byte therefore lands at the array's end,
/// not at the start of the emptied array.
pub fn luaL_addchar(pos: usize, capacity: usize, c: char) -> (r: AddChar)
    requires
        pos < usize::MAX,
    ensures
        r.flush == (pos >= capacity),
        r.write_at == pos,
        r.byte == (c as u32) as c_char,
        r.next == pos + 1,
{
    let code: u32 = c as u32;
    AddChar { flush: pos >= capacity, write_at: pos, byte: code as c_char, next: pos + 1 }
}

/// Moves the write position of a buffer by `n` bytes (after the caller
/// wrote `n` bytes into the area `luaL_prepbuffer` gave).
pub fn luaL_addsize(pos: usize, n: isize, capacity: usize) -> (r: usize)
    requires
        0 <= pos + n <= capacity,
    ensures
        r == pos + n,
{
    if n >= 0 {
        pos + n as usize
    } else {
        let back: usize = (-(n + 1)) as usize + 1;
        pos - back
    }
}

// ---------------------------------------------------------------------
// References
// ---------------------------------------------------------------------

/// What `lua_ref` does.
#[derive(Debug, PartialEq, Eq)]
pub enum RefPlan {
    /// Pops the value into the registry; the reference is the call's result.
    Reference(ApiCall),
    /// Raises an error with a message; the helper's result is 0.
    Obsolete(Vec<ApiCall>),
}

/// The message of the error that `lua_ref` raises for an unlocked
/// reference: `unlocked references are obsolete`.
pub open spec fn obsolete_ref_message() -> Seq<u8> {
    seq![
        117u8, 110u8, 108u8, 111u8, 99u8, 107u8, 101u8, 100u8, 32u8, 114u8, 101u8, 102u8, 101u8,
        114u8, 101u8, 110u8, 99u8, 101u8, 115u8, 32u8, 97u8, 114u8, 101u8, 32u8, 111u8, 98u8,
        115u8, 111u8, 108u8, 101u8, 116u8, 101u8,
    ]
}

/// The calls that refuse an unlocked reference: push the message, raise it.
pub open spec fn raises_obsolete_ref(calls: Seq<ApiCall>) -> bool {
    &&& calls.len() == 2
    &&& match calls[0] {
        ApiCall::PushLString { bytes } => bytes@ == obsolete_ref_message(),
        _ => false,
    }
    &&& calls[1] == ApiCall::Error
}

/// Makes a reference to the value on top of the stack: a locked reference
/// goes into the registry; an unlocked one is refused with an error.
pub fn lua_ref(lock: bool) -> (r: RefPlan)
    ensures
        lock ==> r == RefPlan::Reference(ApiCall::Ref { table: LUA_REGISTRYINDEX }),
        !lock ==> (r matches RefPlan::Obsolete(calls) && raises_obsolete_ref(calls@)),
{
    if lock {
        RefPlan::Reference(ApiCall::Ref { table: LUA_REGISTRYINDEX })
    } else {
        let message: Vec<u8> = vec![
            117u8, 110u8, 108u8, 111u8, 99u8, 107u8, 101u8, 100u8, 32u8, 114u8, 101u8, 102u8,
            101u8, 114u8, 101u8, 110u8, 99u8, 101u8, 115u8, 32u8, 97u8, 114u8, 101u8, 32u8,
            111u8, 98u8, 115u8, 111u8, 108u8, 101u8, 116u8, 101u8,
        ];
        let mut calls: Vec<ApiCall> = Vec::new();
        calls.push(ApiCall::PushLString { bytes: message });
        calls.push(ApiCall::Error);
        RefPlan::Obsolete(calls)
    }
}

} // verus!
