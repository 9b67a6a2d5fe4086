//! Conversions of values read from the Lua stack.

use libc::c_int;
use vstd::prelude::*;

verus! {

/// The truth of a value from what `lua_toboolean` returned: any non-zero
/// result is true (only `nil` and `false` give zero).
pub fn to_bool(toboolean: c_int) -> (r: bool)
    ensures
        r == (toboolean != 0),
{
    toboolean != 0
}

} // verus!
