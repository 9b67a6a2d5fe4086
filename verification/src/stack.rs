//! A guard over values pushed onto the Lua stack: unless it is told to
//! keep them, the values it counts are popped when it is dropped.

use core::marker::PhantomData;
use libc::c_int;
use vstd::prelude::*;
use crate::calls::ApiCall;

verus! {

/// Marker of a guard that hands no value out.
pub struct Void;

/// Counts values pushed onto the stack that are to be popped again.
pub struct StackGuard<V = Void> {
    size: c_int,
    marker: PhantomData<V>,
}

/// The call that dropping a guard makes when it still counts `pending`
/// values: none for zero, else the pop of that many values.
pub open spec fn drop_call(pending: int) -> Option<ApiCall> {
    if pending == 0 {
        None
    } else {
        Some(ApiCall::SetTop { index: (-pending - 1) as c_int })
    }
}

impl<V> StackGuard<V> {
    #[verifier::type_invariant]
    spec fn counts_values(self) -> bool {
        self.size >= 0
    }

    /// The number of values the guard still counts.
    pub closed spec fn pending(self) -> int {
        self.size as int
    }

    /// A guard over the `size` values just pushed.
    pub fn new(size: c_int) -> (r: Self)
        requires
            size >= 0,
        ensures
            r.pending() == size,
    {
        StackGuard { size, marker: PhantomData }
    }

    /// The number of values the guard still counts.
    pub fn size(&self) -> (r: c_int)
        ensures
            r == self.pending(),
    {
        self.size
    }

    /// The call to make when the guard is dropped: the pop of the values it
    /// still counts, or none when it counts none.
    pub fn drop_call(&self) -> (r: Option<ApiCall>)
        ensures
            r == drop_call(self.pending()),
    {
        proof { use_type_invariant(self); }
        if self.size != 0 {
            Some(crate::inlines::lua_pop(self.size))
        } else {
            None
        }
    }
}

impl StackGuard {
    /// Keeps the values on the stack: the guard counts none afterwards, and
    /// the number it counted is returned.
    pub fn forget(&mut self) -> (r: c_int)
        ensures
            r == old(self).pending(),
            final(self).pending() == 0,
    {
        proof { use_type_invariant(&*self); }
        let size = self.size;
        self.size = 0;
        size
    }

    /// Keeps the single value that the guard counts on the stack.
    pub fn assert_one_and_forget(&mut self) -> (r: c_int)
        requires
            old(self).pending() == 1,
        ensures
            r == 1,
            final(self).pending() == 0,
    {
        self.forget()
    }
}

/// Law: a guard pops exactly the values it counts when it is dropped, and
/// nothing once it has been told to keep them.
pub proof fn lemma_guard_pops_what_it_counts(pending: int)
    requires
        0 <= pending <= i32::MAX,
    ensures
        drop_call(0) is None,
        pending > 0 ==> drop_call(pending) == Some(
            ApiCall::SetTop { index: (-pending - 1) as c_int },
        ),
        pending > 0 ==> -pending - 1 < -1,
{
}

} // verus!
