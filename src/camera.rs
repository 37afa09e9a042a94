//! The decisions behind camera switching: which device index to try next, and
//! whether a grabbed frame is usable. Opening devices and reading frames is
//! left to the caller.
use vstd::prelude::*;

verus! {

/// Device indices are tried in the ring `0, 1, ..., MAX_CAMERA_INDEX, 0, ...`.
pub const MAX_CAMERA_INDEX: i32 = 10;

/// The number of indices in the ring.
pub const CAMERA_RING_LEN: i32 = 11;

/// A grab that takes longer than this many milliseconds marks the camera as
/// unusable.
pub const MAX_GRAB_MS: u64 = 1000;

/// The index after `index` in the ring; an index outside the ring is followed
/// by 0.
pub open spec fn following(index: i32) -> i32 {
    if 0 <= index < MAX_CAMERA_INDEX {
        (index + 1) as i32
    } else {
        0
    }
}

/// How many steps along the ring lead from `from` to `to`.
pub open spec fn ring_distance(from: i32, to: i32) -> int {
    (to - from + CAMERA_RING_LEN) % (CAMERA_RING_LEN as int)
}

pub fn next_index(index: i32) -> (r: i32)
    ensures
        r == following(index),
{
    if 0 <= index && index < MAX_CAMERA_INDEX {
        index + 1
    } else {
        0
    }
}

/// A search for a working camera: it starts after the current one and tries
/// each index of the ring at most once.
#[derive(Clone, Copy, Debug, PartialEq, Eq, Structural)]
pub struct CameraScan {
    /// The first index tried.
    pub start: i32,
    /// The index being tried.
    pub index: i32,
}

impl CameraScan {
    pub open spec fn wf(self) -> bool {
        &&& 0 <= self.start <= MAX_CAMERA_INDEX
        &&& 0 <= self.index <= MAX_CAMERA_INDEX
    }

    /// How many indices were tried before the current one.
    pub open spec fn tried(self) -> int {
        ring_distance(self.start, self.index)
    }

    /// A scan that starts after `current`, or at 0 when no camera is open.
    pub fn begin(current: Option<i32>) -> (s: CameraScan)
        ensures
            s.wf(),
            s.start == s.index,
            s.start == match current {
                None => 0,
                Some(i) => following(i),
            },
    {
        let start = match current {
            None => 0,
            Some(i) => next_index(i),
        };
        CameraScan { start, index: start }
    }

    /// The index being tried could not be opened. Moves on to the next index
    /// and returns it, or returns `None` when the ring is exhausted.
    pub fn on_failure(&mut self) -> (r: Option<i32>)
        requires
            old(self).wf(),
        ensures
            final(self).wf(),
            final(self).start == old(self).start,
            final(self).index == following(old(self).index),
            r == if following(old(self).index) == old(self).start {
                None
            } else {
                Some(following(old(self).index))
            },
            r.is_some() ==> final(self).tried() == old(self).tried() + 1,
            final(self).tried() < CAMERA_RING_LEN,
    {
        let next = next_index(self.index);
        self.index = next;
        if next == self.start {
            None
        } else {
            Some(next)
        }
    }
}

/// A frame is usable when the grab took at most `MAX_GRAB_MS` and the frame
/// has the expected size.
pub fn accepts_frame(
    grab_ms: u64,
    width: i32,
    height: i32,
    expected_width: u32,
    expected_height: u32,
) -> (r: bool)
    ensures
        r == (grab_ms <= MAX_GRAB_MS && width as int == expected_width as int && height as int
            == expected_height as int),
{
    grab_ms <= MAX_GRAB_MS && width >= 0 && height >= 0 && width as u32 == expected_width
        && height as u32 == expected_height
}

} // verus!
