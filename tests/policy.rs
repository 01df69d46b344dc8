use fight_animation::{
    AnimationKey, FightTranslation, FileId, PackKey, PlaybackKey, TranslateAnimation, Transition,
};

/// The host's side of a call: the remaining time is below zero once the
/// current animation has run out.
fn decide(rest_time: f32, pack: PackKey, anim: AnimationKey) -> Option<Transition> {
    FightTranslation::translate_animation(rest_time < 0.0, (&pack, &anim), None, &())
}

#[test]
fn zero_remaining_time_keeps_animation() {
    assert_eq!(decide(0.0, PackKey::Base, AnimationKey::Walk), None);
}

#[test]
fn small_overrun_moves_to_successor() {
    assert_eq!(
        decide(-0.0001, PackKey::Base, AnimationKey::Walk),
        Some((PackKey::Base, AnimationKey::Run, 0))
    );
}

#[test]
fn positive_remaining_time_keeps_animation() {
    assert_eq!(decide(5.0, PackKey::Base, AnimationKey::Walk), None);
}

#[test]
fn overrun_keeps_pack_and_starts_at_frame_zero() {
    let mut key = AnimationKey::Stance;
    for _ in 0..13 {
        let (pack, next, frame) = decide(-1.0, PackKey::Base, key).unwrap();
        assert_eq!(pack, PackKey::Base);
        assert_eq!(next, key.next());
        assert_eq!(frame, 0);
        key = next;
    }
}

#[test]
fn payload_is_ignored() {
    let r = FightTranslation::translate_animation(
        true,
        (&PackKey::Base, &AnimationKey::Punch2),
        Some(&()),
        &(),
    );
    assert_eq!(r, Some((PackKey::Base, AnimationKey::Sitdown, 0)));
}

#[test]
fn entity_walks_the_whole_cycle() {
    let mut key = PlaybackKey::new(FileId::Sample, PackKey::Base, AnimationKey::Stance);
    let start = key.update::<FightTranslation>(-0.02f32 < 0.0, None, &());
    assert_eq!(start, Some(0));
    assert_eq!(key.pack, PackKey::Base);
    assert_eq!(key.animation, AnimationKey::Sit);

    let start = key.update::<FightTranslation>(0.3f32 < 0.0, None, &());
    assert_eq!(start, None);
    assert_eq!(key.animation, AnimationKey::Sit);

    for _ in 0..12 {
        assert_eq!(key.update::<FightTranslation>(true, None, &()), Some(0));
        assert_eq!(key.pack, PackKey::Base);
    }
    assert_eq!(
        key,
        PlaybackKey::new(FileId::Sample, PackKey::Base, AnimationKey::Stance)
    );
}
