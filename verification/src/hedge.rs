//! The hedged exposure of a market with three outcomes that exclude each
//! other.
//!
//! Whichever outcome wins, the market owes what is locked on it and keeps
//! what is locked on the other two. The exposure of an outcome is the
//! distance between the two, and the hedged exposure of the market is the
//! largest of the three.

use vstd::prelude::*;

verus! {

/// The distance between two numbers.
pub open spec fn distance(a: int, b: int) -> int {
    if a >= b {
        a - b
    } else {
        b - a
    }
}

/// The larger of two numbers.
pub open spec fn larger(a: int, b: int) -> int {
    if a >= b {
        a
    } else {
        b
    }
}

/// The hedged exposure of a market with `l0`, `l1` and `l2` locked on its
/// three outcomes: the largest distance between what is locked on one
/// outcome and what is locked on the two others.
pub open spec fn hedged_exposure(l0: int, l1: int, l2: int) -> int {
    larger(larger(distance(l0, l1 + l2), distance(l1, l0 + l2)), distance(l2, l0 + l1))
}

/// Computes the hedged exposure of a market whose locked amounts sum up to
/// no more than 64 bits hold.
pub fn hedged_locking(l0: u64, l1: u64, l2: u64) -> (out: u64)
    requires
        l0 + l1 + l2 <= u64::MAX,
    ensures
        out == hedged_exposure(l0 as int, l1 as int, l2 as int),
{
    let lock_0: u64 = gap(l0, l1 + l2);
    let lock_1: u64 = gap(l1, l0 + l2);
    let lock_2: u64 = gap(l2, l0 + l1);
    let first: u64 = if lock_0 >= lock_1 {
        lock_0
    } else {
        lock_1
    };
    if first >= lock_2 {
        first
    } else {
        lock_2
    }
}

/// Computes the hedged exposure of any market, in a type wide enough for the
/// sums of what is locked.
pub fn hedged_locking_wide(l0: u64, l1: u64, l2: u64) -> (out: u128)
    ensures
        out == hedged_exposure(l0 as int, l1 as int, l2 as int),
{
    let (a, b, c): (u128, u128, u128) = (l0 as u128, l1 as u128, l2 as u128);
    let lock_0: u128 = if a >= b + c {
        a - (b + c)
    } else {
        b + c - a
    };
    let lock_1: u128 = if b >= a + c {
        b - (a + c)
    } else {
        a + c - b
    };
    let lock_2: u128 = if c >= a + b {
        c - (a + b)
    } else {
        a + b - c
    };
    let first: u128 = if lock_0 >= lock_1 {
        lock_0
    } else {
        lock_1
    };
    if first >= lock_2 {
        first
    } else {
        lock_2
    }
}

/// The distance between two amounts.
pub fn gap(a: u64, b: u64) -> (out: u64)
    ensures
        out == distance(a as int, b as int),
{
    if a >= b {
        a - b
    } else {
        b - a
    }
}

} // verus!
