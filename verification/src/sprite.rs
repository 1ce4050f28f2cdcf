//! An animated entity as a whole: its request, the flag that says the request
//! is new, its playback state and its displayed frame; and the tick that runs
//! the resolver and then the advancer on it.

use crate::catalog::AnimationSet;
use crate::definition::AnimationDefinition;
use crate::engine::{animate_sprites, init_atlas_animation};
use crate::playback::{PlayingAnimation, RequestedAnimation};
use std::hash::Hash;
use vstd::prelude::*;

verus! {

/// What the resolver did with an entity.
#[derive(Clone, Copy, Debug, PartialEq, Eq, Structural)]
pub enum Resolution {
    /// The request had not changed; nothing was done.
    Unchanged,
    /// The request had changed, but the catalog holds no such key; the entity
    /// was left as it was.
    UnknownKey,
    /// Playback was (re)started on this frame.
    Restarted(usize),
}

/// The animation state of one entity.
pub struct AnimatedSprite<T> {
    /// The animation the entity should be playing.
    pub requested: RequestedAnimation<T>,
    /// Whether the request was set or overwritten since the resolver last ran.
    pub changed: bool,
    /// Playback state; there from the first time a request was resolved.
    pub playing: Option<PlayingAnimation>,
    /// The displayed frame, an index into the atlas.
    pub frame: usize,
}

impl<T> AnimatedSprite<T> {
    /// What holds of an entity between ticks: once its request has been seen
    /// and found in the catalog, its playback state is there and tracks the
    /// definition that it requested.
    pub open spec fn settled(&self, defs: Map<T, AnimationDefinition>) -> bool {
        !self.changed && defs.contains_key(self.requested@) ==> (self.playing matches Some(
            playing,
        ) && playing.tracks(defs[self.requested@]))
    }

    /// Whether `resolution` is one that the resolver may come to on this
    /// entity: it restarts exactly when the request has changed and is known,
    /// and then on a frame of the range, the first one unless the definition
    /// asks for a random start.
    pub open spec fn admits(
        &self,
        defs: Map<T, AnimationDefinition>,
        resolution: Resolution,
    ) -> bool {
        match resolution {
            Resolution::Unchanged => !self.changed,
            Resolution::UnknownKey => self.changed && !defs.contains_key(self.requested@),
            Resolution::Restarted(start_frame) => {
                &&& self.changed
                &&& defs.contains_key(self.requested@)
                &&& defs[self.requested@].start <= start_frame <= defs[self.requested@].end
                &&& !defs[self.requested@].random_start ==> start_frame
                    == defs[self.requested@].start
            },
        }
    }

    /// The entity after the resolver has come to `resolution`: the request
    /// counts as seen, and a restart replaces playback state and displayed
    /// frame.
    pub open spec fn resolved(
        &self,
        defs: Map<T, AnimationDefinition>,
        resolution: Resolution,
    ) -> AnimatedSprite<T> {
        match resolution {
            Resolution::Restarted(start_frame) => AnimatedSprite {
                requested: self.requested,
                changed: false,
                playing: Some(PlayingAnimation::started(defs[self.requested@], start_frame)),
                frame: start_frame,
            },
            _ => AnimatedSprite {
                requested: self.requested,
                changed: false,
                playing: self.playing,
                frame: self.frame,
            },
        }
    }

    /// The entity after the advancer has let `delta_nanos` pass: playback of a
    /// known key advances; an entity that is not playing, or whose key the
    /// catalog does not hold, stays as it is.
    pub open spec fn advanced(
        &self,
        defs: Map<T, AnimationDefinition>,
        delta_nanos: u64,
    ) -> AnimatedSprite<T> {
        match self.playing {
            Some(playing) if defs.contains_key(self.requested@) => {
                let after = playing.advanced(defs[self.requested@], self.frame, delta_nanos);
                AnimatedSprite {
                    requested: self.requested,
                    changed: self.changed,
                    playing: Some(after.0),
                    frame: after.1,
                }
            },
            _ => *self,
        }
    }

    /// Whether `after` is what one tick of `delta_nanos` may make of this
    /// entity: the resolver first, then the advancer on what it left.
    pub open spec fn ticks_to(
        &self,
        defs: Map<T, AnimationDefinition>,
        delta_nanos: u64,
        after: AnimatedSprite<T>,
    ) -> bool {
        exists|resolution: Resolution| #[trigger]
            self.admits(defs, resolution) && after == self.resolved(defs, resolution).advanced(
                defs,
                delta_nanos,
            )
    }

    /// Whether `after` is what a run of ticks, one for each of `deltas` in
    /// turn, may make of this entity.
    pub open spec fn runs_to(
        &self,
        defs: Map<T, AnimationDefinition>,
        deltas: Seq<u64>,
        after: AnimatedSprite<T>,
    ) -> bool
        decreases deltas.len(),
    {
        if deltas.len() == 0 {
            after == *self
        } else {
            exists|before: AnimatedSprite<T>|
                self.runs_to(defs, deltas.drop_last(), before) && #[trigger] before.ticks_to(
                    defs,
                    deltas.last(),
                    after,
                )
        }
    }
}

impl<T: Eq + Hash> AnimatedSprite<T> {
    /// An entity that shows `frame` and has just been asked to play `play`.
    pub fn new(play: T, frame: usize) -> (sprite: Self)
        ensures
            sprite.requested@ == play,
            sprite.changed,
            sprite.playing is None,
            sprite.frame == frame,
            forall|defs: Map<T, AnimationDefinition>| sprite.settled(defs),
    {
        AnimatedSprite { requested: RequestedAnimation::new(play), changed: true, playing: None, frame }
    }

    /// Asks the entity to play `play`. Asking for the key that is already
    /// requested counts as a change too.
    pub fn request(&mut self, play: T)
        ensures
            final(self).requested@ == play,
            final(self).changed,
            final(self).playing == old(self).playing,
            final(self).frame == old(self).frame,
            forall|defs: Map<T, AnimationDefinition>| final(self).settled(defs),
    {
        self.requested = RequestedAnimation::new(play);
        self.changed = true;
    }

    /// Runs the resolver on the entity, and says what it did.
    pub fn resolve(&mut self, defs: &AnimationSet<T>) -> (resolution: Resolution)
        ensures
            old(self).admits(defs@, resolution),
            *final(self) == old(self).resolved(defs@, resolution),
            old(self).settled(defs@) ==> final(self).settled(defs@),
    {
        if !self.changed {
            return Resolution::Unchanged;
        }
        self.changed = false;
        if init_atlas_animation(defs, &self.requested, &mut self.playing, &mut self.frame) {
            Resolution::Restarted(self.frame)
        } else {
            Resolution::UnknownKey
        }
    }

    /// Runs the advancer on the entity, and says whether the displayed frame
    /// was stepped.
    pub fn advance(&mut self, defs: &AnimationSet<T>, delta_nanos: u64) -> (stepped: bool)
        ensures
            *final(self) == old(self).advanced(defs@, delta_nanos),
            stepped ==> old(self).playing is Some && defs@.contains_key(old(self).requested@),
            old(self).settled(defs@) ==> final(self).settled(defs@),
    {
        match &mut self.playing {
            Some(playing) => animate_sprites(
                defs,
                &self.requested,
                playing,
                &mut self.frame,
                delta_nanos,
            ),
            None => false,
        }
    }

    /// One tick of the entity: the resolver, then the advancer, so that a new
    /// request is in force before time passes for it. Says what the resolver
    /// did.
    pub fn tick(&mut self, defs: &AnimationSet<T>, delta_nanos: u64) -> (resolution: Resolution)
        ensures
            old(self).admits(defs@, resolution),
            *final(self) == old(self).resolved(defs@, resolution).advanced(defs@, delta_nanos),
            old(self).ticks_to(defs@, delta_nanos, *final(self)),
            old(self).settled(defs@) ==> final(self).settled(defs@),
    {
        let resolution = self.resolve(defs);
        self.advance(defs, delta_nanos);
        resolution
    }
}

/// One tick of every entity in `sprites`, each on its own.
pub fn tick_all<T: Eq + Hash>(
    defs: &AnimationSet<T>,
    sprites: &mut Vec<AnimatedSprite<T>>,
    delta_nanos: u64,
)
    ensures
        final(sprites)@.len() == old(sprites)@.len(),
        forall|i: int|
            0 <= i < old(sprites)@.len() ==> (#[trigger] old(sprites)@[i]).ticks_to(
                defs@,
                delta_nanos,
                final(sprites)@[i],
            ),
        forall|i: int|
            0 <= i < old(sprites)@.len() && (#[trigger] old(sprites)@[i]).settled(defs@)
                ==> final(sprites)@[i].settled(defs@),
{
    let ghost before = sprites@;
    let mut at: usize = 0;
    while at < sprites.len()
        invariant
            sprites@.len() == before.len(),
            at <= sprites@.len(),
            forall|i: int|
                0 <= i < at ==> (#[trigger] before[i]).ticks_to(defs@, delta_nanos, sprites@[i]),
            forall|i: int| at <= i < before.len() ==> sprites@[i] == before[i],
            forall|i: int|
                0 <= i < at && (#[trigger] before[i]).settled(defs@) ==> sprites@[i].settled(
                    defs@,
                ),
        decreases sprites@.len() - at,
    {
        let sprite = &mut sprites[at];
        sprite.tick(defs, delta_nanos);
        at = at + 1;
    }
}

} // verus!
