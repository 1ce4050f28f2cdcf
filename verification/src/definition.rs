//! Animation definitions: an inclusive range of atlas frames, a frame rate and
//! the policies that apply when playback runs past the last frame.

use vstd::prelude::*;

verus! {

/// Nanoseconds in one second; all times in this crate are whole nanoseconds.
pub const NANOS_PER_SECOND: u64 = 1_000_000_000;

/// An immutable description of one named animation.
#[derive(Clone, Copy, Debug, PartialEq, Eq, Structural)]
pub struct AnimationDefinition {
    /// First frame of the range (inclusive), as an index into the atlas.
    pub start: usize,
    /// Last frame of the range (inclusive).
    pub end: usize,
    /// Frame rate in whole frames per second.
    pub fps: u32,
    /// Whether playback goes on for ever; a repeating animation never completes.
    pub repeat: bool,
    /// Where playback resumes after the last frame; `start` when unset.
    pub repeat_from: Option<usize>,
    /// Whether each (re)start picks its first frame at random within the range.
    pub random_start: bool,
}

impl AnimationDefinition {
    /// A definition the engine can play: a non-empty frame range whose upper
    /// bound leaves room for `end + 1`, and a frame rate between one frame per
    /// second and one frame per nanosecond.
    pub open spec fn wf(&self) -> bool {
        &&& self.start <= self.end
        &&& self.end < usize::MAX
        &&& 0 < self.fps
        &&& self.fps <= NANOS_PER_SECOND
    }

    /// Number of frames in the range.
    pub open spec fn spec_frame_count(&self) -> int {
        self.end - self.start + 1
    }

    /// Time between two frame advances: one second divided by the frame rate,
    /// rounded down to a nanosecond.
    pub open spec fn spec_period_nanos(&self) -> int {
        NANOS_PER_SECOND as int / self.fps as int
    }

    /// Time one pass over the whole range takes: the frame count divided by the
    /// frame rate, rounded down to a nanosecond.
    pub open spec fn spec_duration_nanos(&self) -> int {
        (self.spec_frame_count() * NANOS_PER_SECOND as int) / self.fps as int
    }

    /// Where playback lands when it steps past `end`.
    pub open spec fn wrap_target(&self) -> usize {
        match self.repeat_from {
            Some(frame) => frame,
            None => self.start,
        }
    }

    /// Decides whether the definition is well formed.
    pub fn is_well_formed(&self) -> (ok: bool)
        ensures
            ok == self.wf(),
    {
        self.start <= self.end && self.end < usize::MAX && 0 < self.fps && self.fps as u64
            <= NANOS_PER_SECOND
    }

    /// Number of frames in the range.
    pub fn frame_count(&self) -> (count: usize)
        requires
            self.wf(),
        ensures
            count == self.spec_frame_count(),
            count >= 1,
    {
        self.end - self.start + 1
    }

    /// Time between two frame advances, in nanoseconds.
    pub fn period_nanos(&self) -> (period: u64)
        requires
            self.wf(),
        ensures
            period == self.spec_period_nanos(),
            period >= 1,
    {
        assert(NANOS_PER_SECOND as int / self.fps as int >= 1) by (nonlinear_arith)
            requires
                0 < self.fps <= NANOS_PER_SECOND,
        ;
        NANOS_PER_SECOND / (self.fps as u64)
    }

    /// Time one pass over the whole range takes, in nanoseconds.
    pub fn duration_nanos(&self) -> (duration: u128)
        requires
            self.wf(),
        ensures
            duration == self.spec_duration_nanos(),
    {
        let count: u128 = self.frame_count() as u128;
        assert(count * (NANOS_PER_SECOND as u128) <= u128::MAX) by (nonlinear_arith)
            requires
                count <= 0xffff_ffff_ffff_ffff,
                NANOS_PER_SECOND == 1_000_000_000,
        ;
        (count * (NANOS_PER_SECOND as u128)) / (self.fps as u128)
    }
}

} // verus!
