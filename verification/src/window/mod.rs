//! Native windows: the id counter shared with the UI layer, and the
//! configuration and preconditions of a window-creation request.

use vstd::prelude::*;
use vstd::arithmetic::div_mod::{lemma_add_mod_noop, lemma_mod_equivalence, lemma_small_mod};

use crate::error::NativeError;

verus! {

/// The id that follows `id`: one more, wrapping from `i64::MAX` to `i64::MIN`
/// as an atomic `fetch_add(1)` does.
pub open spec fn next_window_id(id: i64) -> i64 {
    if id == i64::MAX {
        i64::MIN
    } else {
        (id + 1) as i64
    }
}

/// The id handed out by the `k`-th allocation (counting from 0) of an
/// allocator whose next id is `start`.
pub open spec fn nth_window_id(start: i64, k: nat) -> i64
    decreases k,
{
    if k == 0 {
        start
    } else {
        next_window_id(nth_window_id(start, (k - 1) as nat))
    }
}

/// The number of distinct `i64` values.
pub open spec fn id_space() -> int {
    0x1_0000_0000_0000_0000int
}

/// Hands out window ids, starting at 1.
pub struct WindowIdAllocator {
    next: i64,
}

impl View for WindowIdAllocator {
    type V = i64;

    /// The id that the next allocation returns.
    closed spec fn view(&self) -> i64 {
        self.next
    }
}

impl WindowIdAllocator {
    pub fn new() -> (a: WindowIdAllocator)
        ensures
            a@ == 1,
    {
        WindowIdAllocator { next: 1 }
    }

    /// Returns the current id and moves on to the next one.
    pub fn allocate(&mut self) -> (id: i64)
        ensures
            id == old(self)@,
            final(self)@ == next_window_id(old(self)@),
    {
        let id = self.next;
        self.next = if id == i64::MAX {
            i64::MIN
        } else {
            id + 1
        };
        id
    }
}

/// Successive allocations walk through the ids in order, modulo the size
/// of `i64`.
pub proof fn lemma_nth_window_id(start: i64, k: nat)
    ensures
        nth_window_id(start, k) - i64::MIN == (start - i64::MIN + k) % id_space(),
    decreases k,
{
    if k == 0 {
        lemma_small_mod((start - i64::MIN) as nat, id_space() as nat);
    } else {
        lemma_nth_window_id(start, (k - 1) as nat);
        let a = start - i64::MIN + k - 1;
        lemma_add_mod_noop(a, 1, id_space());
        lemma_small_mod(1, id_space() as nat);
        let prev = nth_window_id(start, (k - 1) as nat);
        if prev == i64::MAX {
            assert((a + 1) % id_space() == 0);
        } else {
            assert(a % id_space() + 1 < id_space());
            lemma_small_mod((a % id_space() + 1) as nat, id_space() as nat);
        }
    }
}

/// Ids are unique: no two of fewer than 2^64 successive allocations from one
/// allocator return the same id.
pub proof fn lemma_window_ids_unique(start: i64, i: nat, j: nat)
    requires
        i < j,
        j - i < id_space(),
    ensures
        nth_window_id(start, i) != nth_window_id(start, j),
{
    lemma_nth_window_id(start, i);
    lemma_nth_window_id(start, j);
    let x = start - i64::MIN + j;
    let y = start - i64::MIN + i;
    lemma_mod_equivalence(x, y, id_space());
    lemma_small_mod((x - y) as nat, id_space() as nat);
}

/// The window configuration handed to the UI layer's `createOSWindow`.
#[derive(Debug)]
pub struct WindowConfig {
    pub name: String,
    pub window_type: i32,
    pub window_id: i64,
    pub width: i32,
    pub height: i32,
    pub x: i32,
    pub y: i32,
}

impl WindowConfig {
    /// An 800 x 600 window at (100, 100) with the given name, type and id.
    pub fn new(name: String, window_type: i32, window_id: i64) -> (c: WindowConfig)
        ensures
            c.name@ == name@,
            c.window_type == window_type,
            c.window_id == window_id,
            c.width == 800,
            c.height == 600,
            c.x == 100,
            c.y == 100,
    {
        WindowConfig { name, window_type, window_id, width: 800, height: 600, x: 100, y: 100 }
    }
}

/// Decides a window-creation request once its id is allocated: the UI layer
/// can only be asked when both the helper object and the main-thread
/// environment are set up; then it is asked for the configuration built
/// from the request.
pub fn plan_os_window(
    helper_ready: bool,
    env_ready: bool,
    name: String,
    window_type: i32,
    window_id: i64,
) -> (r: Result<WindowConfig, NativeError>)
    ensures
        match r {
            Ok(c) => {
                &&& helper_ready && env_ready
                &&& c.name@ == name@
                &&& c.window_type == window_type
                &&& c.window_id == window_id
                &&& c.width == 800 && c.height == 600 && c.x == 100 && c.y == 100
            },
            Err(e) => !(helper_ready && env_ready) && e.reason@
                == "Helper or Env not initialized"@,
        },
{
    if helper_ready && env_ready {
        Ok(WindowConfig::new(name, window_type, window_id))
    } else {
        Err(NativeError::from_reason("Helper or Env not initialized"))
    }
}

} // verus!
