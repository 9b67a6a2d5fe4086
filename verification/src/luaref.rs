//! A reference to a Lua value held in the registry.

use libc::c_int;
use vstd::prelude::*;
use crate::text::{decimal_text, push_decimal};

verus! {

/// A value kept alive in the registry under a reference number.
pub struct LuaRef {
    index: c_int,
}

impl LuaRef {
    /// The reference number.
    pub closed spec fn number(self) -> int {
        self.index as int
    }

    /// The reference held under `index` in the registry.
    pub fn new(index: c_int) -> (r: LuaRef)
        ensures
            r.number() == index,
    {
        LuaRef { index }
    }

    /// The reference number in the registry.
    pub fn index(&self) -> (r: c_int)
        ensures
            r == self.number(),
    {
        self.index
    }

    /// What `Debug` shows: `LuaRef(` and the reference number, then `)`.
    pub fn debug_text(&self) -> (r: String)
        ensures
            r@ == "LuaRef("@ + decimal_text(self.number()) + ")"@,
    {
        let mut s = String::new();
        s.append("LuaRef(");
        push_decimal(&mut s, self.index);
        s.append(")");
        s
    }
}

} // verus!
