//! The key that names the animation an entity is playing.
use vstd::prelude::*;

use crate::file::FileId;
use crate::pack::{AnimationKey, PackKey};
use crate::translation::TranslateAnimation;

verus! {

/// Which animation an entity plays: the file it comes from, the pack within
/// that file and the animation within that pack.
#[derive(PartialEq, Eq, Structural, Debug, Clone, Copy)]
pub struct PlaybackKey {
    pub file: FileId,
    pub pack: PackKey,
    pub animation: AnimationKey,
}

impl PlaybackKey {
    /// The key of `animation` in pack `pack` of file `file`.
    pub fn new(file: FileId, pack: PackKey, animation: AnimationKey) -> (r: PlaybackKey)
        ensures
            r == (PlaybackKey { file, pack, animation }),
    {
        PlaybackKey { file, pack, animation }
    }

    /// Asks the policy `T` what this entity plays next and applies its
    /// answer: on a transition the pack and the animation are replaced and
    /// the frame at which the new animation starts is returned, so that the
    /// host can reset the entity's clock; otherwise the key is left as it is.
    /// `overrun` is whether the remaining time of the current animation is
    /// below zero.
    pub fn update<T: TranslateAnimation>(
        &mut self,
        overrun: bool,
        user: Option<&T::UserData>,
        optional: &T::OptionalData,
    ) -> (start: Option<usize>)
        ensures
            match T::decision(overrun, old(self).pack, old(self).animation, user, optional) {
                Some(t) => {
                    &&& *final(self) == (PlaybackKey { pack: t.0, animation: t.1, ..*old(self) })
                    &&& start == Some(t.2)
                },
                None => *final(self) == *old(self) && start.is_none(),
            },
    {
        match T::translate_animation(overrun, (&self.pack, &self.animation), user, optional) {
            Some((pack, animation, frame)) => {
                self.pack = pack;
                self.animation = animation;
                Some(frame)
            },
            None => None,
        }
    }
}

} // verus!
