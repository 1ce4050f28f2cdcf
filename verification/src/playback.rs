//! Per-entity playback: what an entity is asked to play, the state of what it
//! is playing, and the two transitions that drive its displayed frame: the
//! (re)start on a new request and the timed advance.

use crate::definition::AnimationDefinition;
use crate::timer::FrameTimer;
use vstd::prelude::*;

verus! {

/// The animation an entity should be playing, by its key in the catalog.
pub struct RequestedAnimation<T> {
    play: T,
}

impl<T> View for RequestedAnimation<T> {
    type V = T;

    closed spec fn view(&self) -> T {
        self.play
    }
}

impl<T: Clone> Clone for RequestedAnimation<T> {
    /// A request for a clone of the key.
    fn clone(&self) -> (copy: Self)
        ensures
            cloned(self@, copy@),
    {
        RequestedAnimation { play: self.play.clone() }
    }
}

impl<T> RequestedAnimation<T> {
    /// A request for the animation stored under `play`.
    pub fn new(play: T) -> (req: Self)
        ensures
            req@ == play,
    {
        RequestedAnimation { play }
    }

    /// The requested key.
    pub fn key(&self) -> (key: &T)
        ensures
            *key == self@,
    {
        &self.play
    }
}

/// The playback state of one entity.
#[derive(Clone, Copy, Debug, PartialEq, Eq, Structural)]
pub struct PlayingAnimation {
    /// Paces the frame advances; its period is that of the definition played.
    pub timer: FrameTimer,
    /// The frame that playback last (re)started on.
    pub start_frame: usize,
    /// Set once a non-repeating animation has run its course; the displayed
    /// frame then stays where it is until the next (re)start.
    pub complete: bool,
}

/// The frame that follows `frame`: the next index, or the wrap target of the
/// definition once that would lie past its last frame.
pub open spec fn next_frame(def: AnimationDefinition, frame: usize) -> usize {
    if frame + 1 > def.end {
        def.wrap_target()
    } else {
        (frame + 1) as usize
    }
}

/// Whether arriving at `frame` ends playback that started on `start_frame`.
///
/// A repeating animation never ends. Another one ends when it comes back to
/// the frame it started on or, unless it started at random, when it reaches
/// the last frame of its range.
pub open spec fn completes(def: AnimationDefinition, start_frame: usize, frame: usize) -> bool {
    !def.repeat && ((!def.random_start && frame == def.end) || frame == start_frame)
}

impl PlayingAnimation {
    /// The state of playback that has just (re)started on `start_frame`: a
    /// fresh timer of the definition's period, and not complete.
    pub open spec fn started(def: AnimationDefinition, start_frame: usize) -> PlayingAnimation {
        PlayingAnimation {
            timer: FrameTimer::at(def.spec_period_nanos() as u64, 0),
            start_frame,
            complete: false,
        }
    }

    /// What holds between a playback state and the definition it plays: the
    /// timer runs at the definition's period, playback started on a frame of
    /// its range, and only a non-repeating animation is ever complete.
    pub open spec fn tracks(&self, def: AnimationDefinition) -> bool {
        &&& self.timer.wf()
        &&& self.timer.spec_period_nanos() == def.spec_period_nanos()
        &&& def.start <= self.start_frame <= def.end
        &&& self.complete ==> !def.repeat
    }

    /// State and displayed frame after one frame step; the timer is left alone.
    pub open spec fn stepped(&self, def: AnimationDefinition, frame: usize) -> (
        PlayingAnimation,
        usize,
    ) {
        let shown = next_frame(def, frame);
        (
            PlayingAnimation {
                timer: self.timer,
                start_frame: self.start_frame,
                complete: completes(def, self.start_frame, shown),
            },
            shown,
        )
    }

    /// State and displayed frame after `delta_nanos` have passed.
    ///
    /// Complete playback stays as it is. Otherwise the timer takes the time,
    /// and if it fires, playback moves by exactly one frame step, however much
    /// time has passed.
    pub open spec fn advanced(&self, def: AnimationDefinition, frame: usize, delta_nanos: u64) -> (
        PlayingAnimation,
        usize,
    ) {
        if self.complete {
            (*self, frame)
        } else {
            let waited = PlayingAnimation {
                timer: self.timer.ticked(delta_nanos),
                start_frame: self.start_frame,
                complete: false,
            };
            if self.timer.fires_after(delta_nanos) {
                waited.stepped(def, frame)
            } else {
                (waited, frame)
            }
        }
    }

    /// State and displayed frame after the timer has fired `n` times: each
    /// firing steps playback, unless playback is complete by then.
    pub open spec fn fired_times(&self, def: AnimationDefinition, frame: usize, n: nat) -> (
        PlayingAnimation,
        usize,
    )
        decreases n,
    {
        if n == 0 {
            (*self, frame)
        } else {
            let (before, shown) = self.fired_times(def, frame, (n - 1) as nat);
            if before.complete {
                (before, shown)
            } else {
                before.stepped(def, shown)
            }
        }
    }

    /// State and displayed frame after a run of ticks, one for each of
    /// `deltas` in turn.
    pub open spec fn advanced_through(
        &self,
        def: AnimationDefinition,
        frame: usize,
        deltas: Seq<u64>,
    ) -> (PlayingAnimation, usize)
        decreases deltas.len(),
    {
        if deltas.len() == 0 {
            (*self, frame)
        } else {
            let (before, shown) = self.advanced_through(def, frame, deltas.drop_last());
            before.advanced(def, shown, deltas.last())
        }
    }

    /// Starts playback of `def` on `start_frame`.
    pub fn begin(def: &AnimationDefinition, start_frame: usize) -> (playing: PlayingAnimation)
        requires
            def.wf(),
        ensures
            playing == PlayingAnimation::started(*def, start_frame),
            playing.timer.wf(),
            playing.timer.spec_period_nanos() == def.spec_period_nanos(),
            playing.timer.spec_elapsed_nanos() == 0,
            def.start <= start_frame <= def.end ==> playing.tracks(*def),
    {
        let period = def.period_nanos();
        let timer = FrameTimer::repeating(period);
        PlayingAnimation { timer: timer.unwrap(), start_frame, complete: false }
    }

    /// Restarts playback in place, on `start_frame` of `def`.
    pub fn restart(&mut self, def: &AnimationDefinition, start_frame: usize)
        requires
            def.wf(),
        ensures
            *final(self) == PlayingAnimation::started(*def, start_frame),
            final(self).timer.wf(),
            final(self).timer.spec_period_nanos() == def.spec_period_nanos(),
            final(self).timer.spec_elapsed_nanos() == 0,
            def.start <= start_frame <= def.end ==> final(self).tracks(*def),
    {
        let fresh = PlayingAnimation::begin(def, start_frame);
        self.timer = fresh.timer;
        self.start_frame = start_frame;
        self.complete = false;
    }

    /// Moves playback by one frame step: writes the next frame to `frame` and
    /// marks playback complete if that frame ends it.
    pub fn step(&mut self, def: &AnimationDefinition, frame: &mut usize)
        ensures
            (*final(self), *final(frame)) == old(self).stepped(*def, *old(frame)),
    {
        if *frame >= def.end {
            *frame = match def.repeat_from {
                Some(repeat_from) => repeat_from,
                None => def.start,
            };
        } else {
            *frame = *frame + 1;
        }
        self.complete = !def.repeat && ((!def.random_start && *frame == def.end) || *frame
            == self.start_frame);
    }

    /// Lets `delta_nanos` pass: ticks the timer and, if it fires, moves
    /// playback by one frame step. Says whether it did step.
    pub fn advance(&mut self, def: &AnimationDefinition, frame: &mut usize, delta_nanos: u64) -> (stepped: bool)
        ensures
            (*final(self), *final(frame)) == old(self).advanced(*def, *old(frame), delta_nanos),
            stepped == (!old(self).complete && old(self).timer.fires_after(delta_nanos)),
            old(self).tracks(*def) ==> final(self).tracks(*def),
    {
        if self.complete {
            return false;
        }
        let ghost before = self.timer;
        let fired = self.timer.tick(delta_nanos);
        proof {
            before.lemma_ticked_keeps_period(delta_nanos);
        }
        if fired {
            self.step(def, frame);
        }
        fired
    }
}

} // verus!
