//! The two per-tick systems, for one entity at a time: the resolver, which
//! (re)starts playback when the requested animation has changed, and the
//! advancer, which moves playback on as time passes. Within a tick the
//! resolver runs before the advancer.

use crate::catalog::AnimationSet;
use crate::definition::AnimationDefinition;
use crate::playback::{PlayingAnimation, RequestedAnimation};
use rand::distributions::{Distribution, Uniform};
use std::hash::Hash;
use vstd::prelude::*;

verus! {

/// Draws an index from the half-open range `low..high` with `rand`.
///
/// The draw is `Uniform::from(low..high)` sampled from `rand::thread_rng()`.
/// `rand` spreads the draws evenly over the range; all that is claimed here is
/// that a draw lies in the range. An empty range makes `Uniform::from` panic,
/// so it is left out.
#[verifier::external_body]
fn sample_below(low: usize, high: usize) -> (drawn: usize)
    requires
        low < high,
    ensures
        low <= drawn < high,
{
    let mut rng = rand::thread_rng();
    Uniform::from(low..high).sample(&mut rng)
}

/// Picks the frame that playback of `def` starts on: a random frame of its
/// range if the definition asks for one, its first frame otherwise.
pub fn pick_start_frame(def: &AnimationDefinition) -> (start_frame: usize)
    requires
        def.wf(),
    ensures
        def.start <= start_frame <= def.end,
        !def.random_start ==> start_frame == def.start,
{
    if def.random_start {
        sample_below(def.start, def.end + 1)
    } else {
        def.start
    }
}

/// (Re)starts an entity's playback of `def` on `start_frame`.
///
/// Playback state that is there is overwritten in place, so that it stays the
/// same object to whoever else watches it; otherwise it is created. The
/// displayed frame becomes `start_frame` at once.
pub fn restart_on(
    def: &AnimationDefinition,
    start_frame: usize,
    playing: &mut Option<PlayingAnimation>,
    frame: &mut usize,
)
    requires
        def.wf(),
    ensures
        *final(playing) == Some(PlayingAnimation::started(*def, start_frame)),
        *final(frame) == start_frame,
        def.start <= start_frame <= def.end ==> final(playing).unwrap().tracks(*def),
{
    match playing {
        Some(anim) => {
            anim.restart(def, start_frame);
        },
        None => {
            *playing = Some(PlayingAnimation::begin(def, start_frame));
        },
    }
    *frame = start_frame;
}

/// The resolver: (re)starts an entity's playback after its request has been
/// set or changed. Says whether the requested key was found.
///
/// A key that the catalog does not hold leaves the entity untouched. For one
/// that it holds, playback restarts on a frame picked by `pick_start_frame`,
/// whatever state it was in, and that frame is displayed.
pub fn init_atlas_animation<T: Eq + Hash>(
    defs: &AnimationSet<T>,
    req: &RequestedAnimation<T>,
    playing: &mut Option<PlayingAnimation>,
    frame: &mut usize,
) -> (resolved: bool)
    ensures
        resolved == defs@.contains_key(req@),
        !resolved ==> *final(playing) == *old(playing) && *final(frame) == *old(frame),
        resolved ==> {
            let def = defs@[req@];
            &&& *final(playing) == Some(PlayingAnimation::started(def, *final(frame)))
            &&& def.start <= *final(frame) <= def.end
            &&& !def.random_start ==> *final(frame) == def.start
            &&& final(playing).unwrap().tracks(def)
        },
{
    match defs.get(req.key()) {
        Some(def) => {
            let start_frame = pick_start_frame(def);
            restart_on(def, start_frame, playing, frame);
            true
        },
        None => false,
    }
}

/// The advancer: lets `delta_nanos` pass for an entity that is playing. Says
/// whether the displayed frame was stepped.
///
/// A key that the catalog does not hold leaves the entity untouched, and so
/// does playback that is complete. Otherwise the timer takes the time and, if
/// it fires, the displayed frame moves by one step.
pub fn animate_sprites<T: Eq + Hash>(
    defs: &AnimationSet<T>,
    req: &RequestedAnimation<T>,
    playing: &mut PlayingAnimation,
    frame: &mut usize,
    delta_nanos: u64,
) -> (stepped: bool)
    ensures
        !defs@.contains_key(req@) ==> !stepped && *final(playing) == *old(playing) && *final(frame)
            == *old(frame),
        defs@.contains_key(req@) ==> {
            let def = defs@[req@];
            &&& (*final(playing), *final(frame)) == old(playing).advanced(
                def,
                *old(frame),
                delta_nanos,
            )
            &&& stepped == (!old(playing).complete && old(playing).timer.fires_after(delta_nanos))
            &&& old(playing).tracks(def) ==> final(playing).tracks(def)
        },
{
    match defs.get(req.key()) {
        Some(def) => playing.advance(def, frame, delta_nanos),
        None => false,
    }
}

} // verus!
