//! The shared-state access layer: the two values the input task and the
//! output task communicate through, each behind its own mutual-exclusion
//! lock.
//!
//! Each value is read or written in a single bounded critical section — a
//! plain copy, never held across a wait — and writes replace the whole value
//! at once, so a reader can never observe a brightness vector with one
//! channel updated and another stale. The locks also carry the data
//! invariants: every stored brightness vector is within range, and every
//! stored frame rate is within the band the input task can produce, so the
//! tick-time arithmetic downstream of a read is always well defined.

use vstd::prelude::*;
use vstd::rwlock::{RwLock, RwLockPredicate};

use crate::{DEFAULT_FRAME_RATE, FRAME_RATE_MAX, FRAME_RATE_MIN, LEVELS};

verus! {

/// Every channel of a brightness vector is a valid level in
/// `[0, LEVELS - 1]`.
pub open spec fn levels_ok(v: [u32; 3]) -> bool {
    forall|i: int| 0 <= i < 3 ==> v[i] < LEVELS
}

/// Lock predicate of the shared brightness vector: only valid vectors are
/// ever stored.
pub struct LevelsInv;

impl RwLockPredicate<[u32; 3]> for LevelsInv {
    open spec fn inv(self, v: [u32; 3]) -> bool {
        levels_ok(v)
    }
}

/// A frame rate is within the band the input task can publish.
pub open spec fn frame_rate_ok(fr: u64) -> bool {
    FRAME_RATE_MIN <= fr <= FRAME_RATE_MAX
}

/// Lock predicate of the shared frame rate: only in-band rates are ever
/// stored, so the output task's tick-time denominator is never zero.
pub struct FrameRateInv;

impl RwLockPredicate<u64> for FrameRateInv {
    open spec fn inv(self, fr: u64) -> bool {
        frame_rate_ok(fr)
    }
}

/// The shared brightness vector: three `0 ..= LEVELS - 1` targets, one per
/// channel (red, green, blue), jointly owned by the input task (writer) and
/// the output task (reader).
pub struct SharedLevels {
    cell: RwLock<[u32; 3], LevelsInv>,
}

impl SharedLevels {
    /// Creates the shared vector with all channels dark, as at startup.
    pub fn new() -> SharedLevels {
        SharedLevels { cell: RwLock::new([0, 0, 0], Ghost(LevelsInv)) }
    }

    /// Copies the current vector out under the lock. Whatever was last
    /// committed, the result is a valid vector.
    pub fn get(&self) -> (v: [u32; 3])
        ensures
            levels_ok(v),
    {
        let handle = self.cell.acquire_read();
        let v = *handle.borrow();
        handle.release_read();
        v
    }

    /// Replace-under-lock: commits a full new vector atomically. This is the
    /// only write operation; partial per-channel writes are deliberately not
    /// offered.
    pub fn replace(&self, v: [u32; 3])
        requires
            levels_ok(v),
    {
        let (_, handle) = self.cell.acquire_write();
        handle.release_write(v);
    }
}

/// The shared frame rate: target full red-green-blue refresh cycles per
/// second, jointly owned by the input task (writer) and the output task
/// (reader), under its own lock, independent of the brightness vector's.
pub struct SharedFrameRate {
    cell: RwLock<u64, FrameRateInv>,
}

impl SharedFrameRate {
    /// Creates the shared frame rate at its startup default.
    pub fn new() -> SharedFrameRate {
        SharedFrameRate { cell: RwLock::new(DEFAULT_FRAME_RATE, Ghost(FrameRateInv)) }
    }

    /// Copies the current frame rate out under the lock. Whatever was last
    /// committed, the result is in band, and in particular nonzero.
    pub fn get(&self) -> (fr: u64)
        ensures
            frame_rate_ok(fr),
    {
        let handle = self.cell.acquire_read();
        let fr = *handle.borrow();
        handle.release_read();
        fr
    }

    /// Replace-under-lock: commits a new frame rate atomically.
    pub fn replace(&self, fr: u64)
        requires
            frame_rate_ok(fr),
    {
        let (_, handle) = self.cell.acquire_write();
        handle.release_write(fr);
    }
}

} // verus!
