//! The numeric encoding of the named instructions.
//!
//! Any word outside `0..=30` in instruction position is a call to the address
//! that the word holds.

use vstd::prelude::*;

verus! {

pub const NOP: i32 = 0;
pub const LIT: i32 = 1;
pub const DUP: i32 = 2;
pub const DROP: i32 = 3;
pub const SWAP: i32 = 4;
pub const PUSH: i32 = 5;
pub const POP: i32 = 6;
pub const LOOP: i32 = 7;
pub const JUMP: i32 = 8;
pub const RETURN: i32 = 9;
pub const GT_JUMP: i32 = 10;
pub const LT_JUMP: i32 = 11;
pub const NE_JUMP: i32 = 12;
pub const EQ_JUMP: i32 = 13;
pub const FETCH: i32 = 14;
pub const STORE: i32 = 15;
pub const ADD: i32 = 16;
pub const SUBTRACT: i32 = 17;
pub const MULTIPLY: i32 = 18;
pub const DIVMOD: i32 = 19;
pub const AND: i32 = 20;
pub const OR: i32 = 21;
pub const XOR: i32 = 22;
pub const SHL: i32 = 23;
pub const SHR: i32 = 24;
pub const ZERO_EXIT: i32 = 25;
pub const INC: i32 = 26;
pub const DEC: i32 = 27;
pub const IN: i32 = 28;
pub const OUT: i32 = 29;
pub const WAIT: i32 = 30;

} // verus!
