//! The policy that decides which animation an entity plays next once its
//! current animation has run out.
use vstd::prelude::*;

use crate::pack::{successor, AnimationKey, PackKey};

verus! {

/// A transition: the pack and animation to play next, and the frame at which
/// the new animation starts.
pub type Transition = (PackKey, AnimationKey, usize);

/// A policy that is asked, each time an animated entity is updated, whether
/// the entity goes on with its current animation or switches to another one.
///
/// `UserData` is a payload that the host keeps for each entity (the player's
/// input, for instance) and `OptionalData` one that it shares with every
/// entity; a policy may read both or ignore them.
pub trait TranslateAnimation {
    type UserData;

    type OptionalData;

    /// What the policy decides, given whether the remaining time of the
    /// current animation has gone below zero, the current pack and animation,
    /// and the two payloads.
    spec fn decision(
        overrun: bool,
        pack: PackKey,
        animation: AnimationKey,
        user: Option<&Self::UserData>,
        optional: &Self::OptionalData,
    ) -> Option<Transition>;

    /// Decides what the entity plays next: `None` to go on with the current
    /// animation, or the transition to apply. `overrun` is whether the
    /// remaining time of the current animation is below zero.
    fn translate_animation(
        overrun: bool,
        current: (&PackKey, &AnimationKey),
        user: Option<&Self::UserData>,
        optional: &Self::OptionalData,
    ) -> (r: Option<Transition>)
        ensures
            r == Self::decision(overrun, *current.0, *current.1, user, optional),
    ;
}

/// What the default policy decides: nothing while the current animation runs;
/// once its remaining time has gone below zero, the successor of the current
/// animation in the same pack, from its first frame.
pub open spec fn default_decision(
    overrun: bool,
    pack: PackKey,
    animation: AnimationKey,
) -> Option<Transition> {
    if overrun {
        Some((pack, successor(animation), 0))
    } else {
        None
    }
}

/// The default policy never moves an entity to another pack.
pub proof fn lemma_pack_kept(overrun: bool, pack: PackKey, animation: AnimationKey)
    ensures
        match default_decision(overrun, pack, animation) {
            Some(t) => t.0 == pack,
            None => !overrun,
        },
{
}

/// Every transition of the default policy starts the new animation at its
/// first frame.
pub proof fn lemma_start_frame_zero(overrun: bool, pack: PackKey, animation: AnimationKey)
    ensures
        match default_decision(overrun, pack, animation) {
            Some(t) => t.2 == 0,
            None => true,
        },
{
}

/// The default policy of the fighting game: it walks through every
/// animation of the character in turn, and leaves both payloads aside.
pub struct FightTranslation;

impl TranslateAnimation for FightTranslation {
    type UserData = ();

    type OptionalData = ();

    open spec fn decision(
        overrun: bool,
        pack: PackKey,
        animation: AnimationKey,
        user: Option<&()>,
        optional: &(),
    ) -> Option<Transition> {
        default_decision(overrun, pack, animation)
    }

    fn translate_animation(
        overrun: bool,
        current: (&PackKey, &AnimationKey),
        _user: Option<&()>,
        _optional: &(),
    ) -> (r: Option<Transition>) {
        let (current_pack, current_anim) = current;
        if overrun {
            Some((*current_pack, current_anim.next(), 0))
        } else {
            None
        }
    }
}

} // verus!
