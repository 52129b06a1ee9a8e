//! Wire values for ANC mode, as the Maestro protocol numbers them.

use vstd::prelude::*;

verus! {

pub const UNKNOWN: i32 = 0;

pub const OFF: i32 = 1;

pub const ACTIVE: i32 = 2;

pub const AWARE: i32 = 3;

pub const ADAPTIVE: i32 = 4;

} // verus!
