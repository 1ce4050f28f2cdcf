//! What holds of playback over whole runs: the laws that the transitions of
//! the state machine obey together.

use crate::definition::{AnimationDefinition, NANOS_PER_SECOND};
use crate::playback::{next_frame, PlayingAnimation};
use crate::sprite::{AnimatedSprite, Resolution};
use vstd::arithmetic::div_mod::lemma_fundamental_div_mod_converse;
use vstd::prelude::*;

verus! {

/// Playback that has just (re)started is not complete, whatever came before,
/// and it tracks its definition when it starts on a frame of the range.
pub proof fn law_restart_resets(def: AnimationDefinition, start_frame: usize)
    requires
        def.wf(),
        def.start <= start_frame <= def.end,
    ensures
        !PlayingAnimation::started(def, start_frame).complete,
        PlayingAnimation::started(def, start_frame).start_frame == start_frame,
        PlayingAnimation::started(def, start_frame).tracks(def),
{
    let period = def.spec_period_nanos();
    assert(1 <= period <= NANOS_PER_SECOND) by (nonlinear_arith)
        requires
            period == NANOS_PER_SECOND as int / (def.fps as int),
            0 < def.fps <= NANOS_PER_SECOND,
    ;
    crate::timer::FrameTimer::lemma_at(period as u64, 0);
}

/// A tick keeps what holds between playback and its definition.
pub proof fn law_advance_keeps_tracking(
    playing: PlayingAnimation,
    def: AnimationDefinition,
    frame: usize,
    delta_nanos: u64,
)
    requires
        playing.tracks(def),
    ensures
        playing.advanced(def, frame, delta_nanos).0.tracks(def),
        playing.advanced(def, frame, delta_nanos).0.start_frame == playing.start_frame,
{
    playing.timer.lemma_ticked_keeps_period(delta_nanos);
}

/// A tick of exactly one period is one frame step, and leaves the timer as it
/// was; on complete playback it changes nothing.
pub proof fn law_period_tick_is_one_step(
    playing: PlayingAnimation,
    def: AnimationDefinition,
    frame: usize,
)
    requires
        playing.timer.wf(),
    ensures
        playing.advanced(def, frame, playing.timer.spec_period_nanos()) == if playing.complete {
            (playing, frame)
        } else {
            playing.stepped(def, frame)
        },
{
    playing.timer.lemma_full_period();
}

/// A run of `n` ticks of exactly one period each is `n` firings of the timer,
/// and leaves the timer as it was.
pub proof fn law_period_ticks_are_firings(
    playing: PlayingAnimation,
    def: AnimationDefinition,
    frame: usize,
    n: nat,
)
    requires
        playing.timer.wf(),
    ensures
        playing.advanced_through(
            def,
            frame,
            Seq::new(n, |i: int| playing.timer.spec_period_nanos()),
        ) == playing.fired_times(def, frame, n),
        playing.fired_times(def, frame, n).0.timer == playing.timer,
    decreases n,
{
    let period = playing.timer.spec_period_nanos();
    let deltas = Seq::new(n, |i: int| period);
    if n > 0 {
        let shorter = Seq::new((n - 1) as nat, |i: int| period);
        assert(deltas.drop_last() =~= shorter);
        law_period_ticks_are_firings(playing, def, frame, (n - 1) as nat);
        let before = playing.fired_times(def, frame, (n - 1) as nat);
        law_period_tick_is_one_step(before.0, def, before.1);
    }
}

/// Complete playback is frozen: no run of ticks changes the state or the
/// displayed frame.
pub proof fn law_complete_is_frozen(
    playing: PlayingAnimation,
    def: AnimationDefinition,
    frame: usize,
    deltas: Seq<u64>,
)
    requires
        playing.complete,
    ensures
        playing.advanced_through(def, frame, deltas) == (playing, frame),
    decreases deltas.len(),
{
    if deltas.len() > 0 {
        law_complete_is_frozen(playing, def, frame, deltas.drop_last());
    }
}

/// A repeating animation never completes, whatever run of ticks it sees.
pub proof fn law_repeating_never_completes(
    playing: PlayingAnimation,
    def: AnimationDefinition,
    frame: usize,
    deltas: Seq<u64>,
)
    requires
        def.repeat,
        !playing.complete,
    ensures
        !playing.advanced_through(def, frame, deltas).0.complete,
    decreases deltas.len(),
{
    if deltas.len() > 0 {
        law_repeating_never_completes(playing, def, frame, deltas.drop_last());
    }
}

/// Stepping past the last frame lands on the wrap target: on `repeat_from`
/// where it is set, on the first frame otherwise. Below the last frame a step
/// moves to the next index.
pub proof fn law_step_wraps_at_end(def: AnimationDefinition, frame: usize)
    ensures
        frame >= def.end ==> next_frame(def, frame) == def.wrap_target(),
        frame < def.end ==> next_frame(def, frame) == frame + 1,
        def.repeat_from matches Some(target) ==> def.wrap_target() == target,
        def.repeat_from is None ==> def.wrap_target() == def.start,
{
}

/// An animation of a single frame lasts exactly one period.
pub proof fn law_single_frame_lasts_one_period(def: AnimationDefinition)
    requires
        def.start == def.end,
    ensures
        def.spec_frame_count() == 1,
        def.spec_duration_nanos() == def.spec_period_nanos(),
{
}

/// The frame `n` steps after `frame` when playback runs round from the wrap
/// target to the last frame and back.
pub open spec fn cycled(def: AnimationDefinition, frame: usize, n: nat) -> int {
    def.wrap_target() + (frame - def.wrap_target() + n) % (def.end - def.wrap_target() + 1)
}

/// A repeating animation runs round for ever between its wrap target and its
/// last frame: `n` firings after showing a frame between the two it shows the
/// frame `n` places further round, and it is never complete. With no
/// `repeat_from` set the round is the whole range.
pub proof fn law_repeating_runs_round(
    playing: PlayingAnimation,
    def: AnimationDefinition,
    frame: usize,
    n: nat,
)
    requires
        def.repeat,
        def.wrap_target() <= frame <= def.end,
        !playing.complete,
    ensures
        playing.fired_times(def, frame, n).1 == cycled(def, frame, n),
        def.wrap_target() <= playing.fired_times(def, frame, n).1 <= def.end,
        !playing.fired_times(def, frame, n).0.complete,
    decreases n,
{
    let round = def.end - def.wrap_target() + 1;
    let offset = frame - def.wrap_target();
    if n == 0 {
        lemma_fundamental_div_mod_converse(offset, round, 0, offset);
    } else {
        law_repeating_runs_round(playing, def, frame, (n - 1) as nat);
        let place = (offset + n - 1) % round;
        let turns = (offset + n - 1) / round;
        vstd::arithmetic::div_mod::lemma_fundamental_div_mod(offset + n - 1, round);
        assert(0 <= place < round) by (nonlinear_arith)
            requires
                place == (offset + n - 1) % round,
                round > 0,
        ;
        if place + 1 < round {
            lemma_fundamental_div_mod_converse(offset + n, round, turns, place + 1);
        } else {
            assert(offset + n == (turns + 1) * round + 0) by (nonlinear_arith)
                requires
                    offset + n - 1 == round * turns + place,
                    place + 1 == round,
            ;
            lemma_fundamental_div_mod_converse(offset + n, round, turns + 1, 0);
        }
    }
}

/// A non-repeating animation with a fixed start and more than one frame runs
/// from its first frame straight to its last and completes on arriving there:
/// after exactly `end - start` firings, and not before.
pub proof fn law_fixed_start_completes_at_end(
    playing: PlayingAnimation,
    def: AnimationDefinition,
    n: nat,
)
    requires
        !def.repeat,
        !def.random_start,
        def.start < def.end,
        playing.start_frame == def.start,
        !playing.complete,
        n <= def.end - def.start,
    ensures
        playing.fired_times(def, def.start, n).1 == def.start + n,
        playing.fired_times(def, def.start, n).0.complete == (n == def.end - def.start),
        playing.fired_times(def, def.start, n).0.start_frame == def.start,
    decreases n,
{
    if n > 0 {
        law_fixed_start_completes_at_end(playing, def, (n - 1) as nat);
    }
}

/// A non-repeating animation with a random start completes when it comes back
/// to the frame it started on, and not when it passes its last frame.
///
/// Starting on `start_frame`, with a wrap target that does not lie past it,
/// playback runs up to the last frame, wraps, runs up to `start_frame` again
/// and completes there: after exactly `end - wrap_target + 1` firings.
pub proof fn law_random_start_completes_on_return(
    playing: PlayingAnimation,
    def: AnimationDefinition,
    n: nat,
)
    requires
        !def.repeat,
        def.random_start,
        def.wrap_target() <= playing.start_frame <= def.end,
        !playing.complete,
        n <= def.end - def.wrap_target() + 1,
    ensures
        playing.fired_times(def, playing.start_frame, n).1 == if n <= def.end
            - playing.start_frame {
            playing.start_frame + n
        } else {
            def.wrap_target() + (n - (def.end - playing.start_frame) - 1)
        },
        playing.fired_times(def, playing.start_frame, n).0.complete == (n == def.end
            - def.wrap_target() + 1),
        playing.fired_times(def, playing.start_frame, n).0.start_frame == playing.start_frame,
    decreases n,
{
    if n > 0 {
        law_random_start_completes_on_return(playing, def, (n - 1) as nat);
    }
}

/// A non-repeating animation with a random start whose wrap target lies past
/// the frame it started on never comes back to that frame, and never
/// completes.
pub proof fn law_random_start_past_target_never_completes(
    playing: PlayingAnimation,
    def: AnimationDefinition,
    n: nat,
)
    requires
        def.random_start,
        playing.start_frame < def.wrap_target(),
        playing.start_frame <= def.end,
        !playing.complete,
    ensures
        !playing.fired_times(def, playing.start_frame, n).0.complete,
        n > 0 ==> playing.fired_times(def, playing.start_frame, n).1 > playing.start_frame,
        playing.fired_times(def, playing.start_frame, n).0.start_frame == playing.start_frame,
    decreases n,
{
    if n > 0 {
        law_random_start_past_target_never_completes(playing, def, (n - 1) as nat);
    }
}

/// A request that has been set or overwritten, to a new key or to the same
/// one, restarts playback if the catalog holds the key: whatever state the
/// entity was in, complete or not, playback is not complete afterwards, and
/// the displayed frame is the frame that playback starts on.
pub proof fn law_changed_request_restarts<T>(
    sprite: AnimatedSprite<T>,
    defs: Map<T, AnimationDefinition>,
    resolution: Resolution,
)
    requires
        sprite.changed,
        defs.contains_key(sprite.requested@),
        sprite.admits(defs, resolution),
    ensures
        resolution is Restarted,
        sprite.resolved(defs, resolution).playing matches Some(playing) && {
            &&& !playing.complete
            &&& playing.start_frame == sprite.resolved(defs, resolution).frame
            &&& defs[sprite.requested@].start <= playing.start_frame <= defs[sprite.requested@].end
            &&& !defs[sprite.requested@].random_start ==> playing.start_frame
                == defs[sprite.requested@].start
        },
        !sprite.resolved(defs, resolution).changed,
{
}

/// An entity whose requested key the catalog does not hold keeps its playback
/// state and its displayed frame through a tick.
pub proof fn law_unknown_key_tick_is_idle<T>(
    sprite: AnimatedSprite<T>,
    defs: Map<T, AnimationDefinition>,
    delta_nanos: u64,
    after: AnimatedSprite<T>,
)
    requires
        !defs.contains_key(sprite.requested@),
        sprite.ticks_to(defs, delta_nanos, after),
    ensures
        after.playing == sprite.playing,
        after.frame == sprite.frame,
        after.requested == sprite.requested,
{
}

/// An entity whose requested key the catalog does not hold keeps its playback
/// state and its displayed frame through any run of ticks.
pub proof fn law_unknown_key_run_is_idle<T>(
    sprite: AnimatedSprite<T>,
    defs: Map<T, AnimationDefinition>,
    deltas: Seq<u64>,
    after: AnimatedSprite<T>,
)
    requires
        !defs.contains_key(sprite.requested@),
        sprite.runs_to(defs, deltas, after),
    ensures
        after.playing == sprite.playing,
        after.frame == sprite.frame,
        after.requested == sprite.requested,
    decreases deltas.len(),
{
    if deltas.len() > 0 {
        let before = choose|before: AnimatedSprite<T>|
            sprite.runs_to(defs, deltas.drop_last(), before) && #[trigger] before.ticks_to(
                defs,
                deltas.last(),
                after,
            );
        law_unknown_key_run_is_idle(sprite, defs, deltas.drop_last(), before);
        law_unknown_key_tick_is_idle(before, defs, deltas.last(), after);
    }
}

/// A tick keeps an entity settled, as long as every definition in the catalog
/// is well formed: playback that a request has started tracks the requested
/// definition from then on, so that it started on a frame of the range and is
/// complete only if the definition does not repeat.
pub proof fn law_tick_keeps_settled<T>(
    sprite: AnimatedSprite<T>,
    defs: Map<T, AnimationDefinition>,
    delta_nanos: u64,
    after: AnimatedSprite<T>,
)
    requires
        forall|key: T| defs.contains_key(key) ==> (#[trigger] defs[key]).wf(),
        sprite.settled(defs),
        sprite.ticks_to(defs, delta_nanos, after),
    ensures
        after.settled(defs),
        !after.changed,
{
    let resolution = choose|resolution: Resolution| #[trigger]
        sprite.admits(defs, resolution) && after == sprite.resolved(defs, resolution).advanced(
            defs,
            delta_nanos,
        );
    let resolved = sprite.resolved(defs, resolution);
    if defs.contains_key(sprite.requested@) {
        let def = defs[sprite.requested@];
        if let Resolution::Restarted(start_frame) = resolution {
            law_restart_resets(def, start_frame);
        }
        law_advance_keeps_tracking(resolved.playing.unwrap(), def, resolved.frame, delta_nanos);
    }
}

/// Playback state, once an entity has it, is never taken away by a tick.
pub proof fn law_tick_keeps_playback_state<T>(
    sprite: AnimatedSprite<T>,
    defs: Map<T, AnimationDefinition>,
    delta_nanos: u64,
    after: AnimatedSprite<T>,
)
    requires
        sprite.ticks_to(defs, delta_nanos, after),
    ensures
        sprite.playing is Some ==> after.playing is Some,
        after.playing is Some ==> sprite.playing is Some || (sprite.changed && defs.contains_key(
            sprite.requested@,
        )),
{
}

} // verus!
