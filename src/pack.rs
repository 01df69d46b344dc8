//! Packs and animations of the sample character, with their names and the
//! order in which the animations follow one another.
use vstd::prelude::*;

verus! {

/// A pack of animations within an animation file.
#[derive(PartialEq, Eq, Structural, PartialOrd, Ord, Hash, Debug, Clone, Copy)]
pub enum PackKey {
    Base,
}

/// The name under which a pack is stored.
pub open spec fn pack_name(p: PackKey) -> Seq<char> {
    match p {
        PackKey::Base => "sample"@,
    }
}

impl PackKey {
    /// The name under which this pack is stored.
    pub fn to_string(&self) -> (r: String)
        ensures
            r@ == pack_name(*self),
    {
        match self {
            PackKey::Base => "sample",
        }.to_string()
    }
}

/// One animation of a pack.
#[derive(PartialEq, Eq, Structural, PartialOrd, Ord, Hash, Debug, Clone, Copy)]
pub enum AnimationKey {
    Stance,
    Sit,
    Walk,
    Run,
    Defence,
    Dead2,
    Dead1,
    Kick1,
    Kick2,
    Punch1,
    Punch2,
    Sitdown,
    Standup,
}

/// The name under which an animation is stored: its place in the file,
/// written with four digits, and a lower-case word.
pub open spec fn animation_name(a: AnimationKey) -> Seq<char> {
    match a {
        AnimationKey::Stance => "0000_stance"@,
        AnimationKey::Sit => "0001_sit"@,
        AnimationKey::Walk => "0002_walk"@,
        AnimationKey::Run => "0003_run"@,
        AnimationKey::Defence => "0004_defense"@,
        AnimationKey::Dead2 => "0005_dead2"@,
        AnimationKey::Dead1 => "0006_dead1"@,
        AnimationKey::Kick1 => "0007_kick1"@,
        AnimationKey::Kick2 => "0008_kick2"@,
        AnimationKey::Punch1 => "0009_punch1"@,
        AnimationKey::Punch2 => "0010_punch2"@,
        AnimationKey::Sitdown => "0011_sitdown"@,
        AnimationKey::Standup => "0012_standup"@,
    }
}

/// The place of an animation in the order in which the animations are played.
pub open spec fn ordinal(a: AnimationKey) -> nat {
    match a {
        AnimationKey::Stance => 0,
        AnimationKey::Sit => 1,
        AnimationKey::Walk => 2,
        AnimationKey::Run => 3,
        AnimationKey::Defence => 4,
        AnimationKey::Dead2 => 5,
        AnimationKey::Dead1 => 6,
        AnimationKey::Kick1 => 7,
        AnimationKey::Kick2 => 8,
        AnimationKey::Punch1 => 9,
        AnimationKey::Punch2 => 10,
        AnimationKey::Sitdown => 11,
        AnimationKey::Standup => 12,
    }
}

/// The animation that is played once `a` has finished.
pub open spec fn successor(a: AnimationKey) -> AnimationKey {
    match a {
        AnimationKey::Stance => AnimationKey::Sit,
        AnimationKey::Sit => AnimationKey::Walk,
        AnimationKey::Walk => AnimationKey::Run,
        AnimationKey::Run => AnimationKey::Defence,
        AnimationKey::Defence => AnimationKey::Dead2,
        AnimationKey::Dead2 => AnimationKey::Dead1,
        AnimationKey::Dead1 => AnimationKey::Kick1,
        AnimationKey::Kick1 => AnimationKey::Kick2,
        AnimationKey::Kick2 => AnimationKey::Punch1,
        AnimationKey::Punch1 => AnimationKey::Punch2,
        AnimationKey::Punch2 => AnimationKey::Sitdown,
        AnimationKey::Sitdown => AnimationKey::Standup,
        AnimationKey::Standup => AnimationKey::Stance,
    }
}

/// The animation that is played after `k` animations, starting from `a`,
/// have finished one after the other.
pub open spec fn successor_n(a: AnimationKey, k: nat) -> AnimationKey
    decreases k,
{
    if k == 0 {
        a
    } else {
        successor(successor_n(a, (k - 1) as nat))
    }
}

/// Two animations at the same place in the order are the same animation.
proof fn lemma_ordinal_injective(a: AnimationKey, b: AnimationKey)
    ensures
        ordinal(a) == ordinal(b) ==> a == b,
{
}

/// The successor of every animation is defined, and it is the animation one
/// place further in the order, the first one coming after the last.
pub proof fn lemma_successor_total(a: AnimationKey)
    ensures
        ordinal(a) < 13,
        ordinal(successor(a)) == (ordinal(a) + 1) % 13,
{
}

/// After `k` animations have finished, the order has moved `k` places
/// forward, wrapping around after the last animation.
pub proof fn lemma_successor_n_ordinal(a: AnimationKey, k: nat)
    ensures
        ordinal(successor_n(a, k)) == (ordinal(a) + k) % 13,
    decreases k,
{
    if k > 0 {
        lemma_successor_n_ordinal(a, (k - 1) as nat);
        lemma_successor_total(successor_n(a, (k - 1) as nat));
        lemma_successor_total(a);
    }
}

/// The successors form one single cycle through all thirteen animations:
/// thirteen steps lead back to the start, and no animation comes back earlier.
pub proof fn lemma_successor_cycle(a: AnimationKey)
    ensures
        successor_n(a, 13) == a,
        forall|i: nat, j: nat|
            i < j < 13 ==> #[trigger] successor_n(a, i) != #[trigger] successor_n(a, j),
{
    lemma_successor_total(a);
    lemma_successor_n_ordinal(a, 13);
    lemma_ordinal_injective(successor_n(a, 13), a);
    assert forall|i: nat, j: nat| i < j < 13 implies successor_n(a, i) != successor_n(a, j) by {
        lemma_successor_n_ordinal(a, i);
        lemma_successor_n_ordinal(a, j);
    }
}

/// Every pack and every animation has a name that is not empty.
pub proof fn lemma_key_names_total(p: PackKey, a: AnimationKey)
    ensures
        pack_name(p).len() > 0,
        animation_name(a).len() > 0,
{
    reveal_strlit("sample");
    reveal_strlit("0000_stance");
    reveal_strlit("0001_sit");
    reveal_strlit("0002_walk");
    reveal_strlit("0003_run");
    reveal_strlit("0004_defense");
    reveal_strlit("0005_dead2");
    reveal_strlit("0006_dead1");
    reveal_strlit("0007_kick1");
    reveal_strlit("0008_kick2");
    reveal_strlit("0009_punch1");
    reveal_strlit("0010_punch2");
    reveal_strlit("0011_sitdown");
    reveal_strlit("0012_standup");
}

impl AnimationKey {
    /// The name under which this animation is stored.
    pub fn to_string(&self) -> (r: String)
        ensures
            r@ == animation_name(*self),
    {
        match self {
            AnimationKey::Stance => "0000_stance",
            AnimationKey::Sit => "0001_sit",
            AnimationKey::Walk => "0002_walk",
            AnimationKey::Run => "0003_run",
            AnimationKey::Defence => "0004_defense",
            AnimationKey::Dead2 => "0005_dead2",
            AnimationKey::Dead1 => "0006_dead1",
            AnimationKey::Kick1 => "0007_kick1",
            AnimationKey::Kick2 => "0008_kick2",
            AnimationKey::Punch1 => "0009_punch1",
            AnimationKey::Punch2 => "0010_punch2",
            AnimationKey::Sitdown => "0011_sitdown",
            AnimationKey::Standup => "0012_standup",
        }.to_string()
    }

    /// The animation that is played once this one has finished.
    pub fn next(&self) -> (r: AnimationKey)
        ensures
            r == successor(*self),
    {
        match self {
            AnimationKey::Stance => AnimationKey::Sit,
            AnimationKey::Sit => AnimationKey::Walk,
            AnimationKey::Walk => AnimationKey::Run,
            AnimationKey::Run => AnimationKey::Defence,
            AnimationKey::Defence => AnimationKey::Dead2,
            AnimationKey::Dead2 => AnimationKey::Dead1,
            AnimationKey::Dead1 => AnimationKey::Kick1,
            AnimationKey::Kick1 => AnimationKey::Kick2,
            AnimationKey::Kick2 => AnimationKey::Punch1,
            AnimationKey::Punch1 => AnimationKey::Punch2,
            AnimationKey::Punch2 => AnimationKey::Sitdown,
            AnimationKey::Sitdown => AnimationKey::Standup,
            AnimationKey::Standup => AnimationKey::Stance,
        }
    }
}

} // verus!
