use wallrush::effects::{
    darkness_active, gravity_scale, icy_platforms_active, keys_swapped, shake_camera, Effect,
    EffectQueue,
};

const ALL_EFFECTS: [Effect; 8] = [
    Effect::Earthquake,
    Effect::FastPlatforms,
    Effect::InverseKeyboard,
    Effect::FallthroughPlatforms,
    Effect::HighGravity,
    Effect::LowGravity,
    Effect::Darkness,
    Effect::IcyPlatforms,
];

fn drawn_counts(n: usize) -> Vec<usize> {
    let mut q = EffectQueue::new();
    let mut counts = vec![0usize; ALL_EFFECTS.len()];
    for _ in 0..n {
        q.advance();
        let active = q.active().unwrap();
        let idx = ALL_EFFECTS.iter().position(|e| *e == active).unwrap();
        counts[idx] += 1;
    }
    counts
}

#[test]
fn fair_rotation_over_two_bags() {
    // 16 advances span two full bags: every variant is drawn at least
    // 16 / 8 = 2 times (here: exactly twice).
    let counts = drawn_counts(16);
    for c in counts {
        assert!(c >= 2);
    }
}

#[test]
fn fair_rotation_partial_bag() {
    // 11 advances: every variant at least 11 / 8 = 1 time.
    let counts = drawn_counts(11);
    for c in counts {
        assert!(c >= 1);
    }
}

#[test]
fn active_none_before_first_advance_then_some_forever() {
    let mut q = EffectQueue::new();
    assert_eq!(q.active(), None);
    for _ in 0..30 {
        q.advance();
        assert!(q.active().is_some());
    }
}

#[test]
fn eight_advances_empty_the_queue_and_the_ninth_refills() {
    let mut q = EffectQueue::new();
    for _ in 0..8 {
        q.advance();
    }
    // The first bag is spent: only the active effect is left.
    assert!(q.pending.is_empty());
    assert!(q.active().is_some());

    q.advance();
    // The ninth advance opened a freshly shuffled bag: together with the
    // new active effect it holds all 8 variants, each exactly once.
    assert_eq!(q.pending.len(), 7);
    let mut buffered = q.pending.clone();
    buffered.push(q.active().unwrap());
    assert_eq!(buffered.len(), 8);
    for e in ALL_EFFECTS {
        assert_eq!(buffered.iter().filter(|x| **x == e).count(), 1);
    }
}

#[test]
fn effect_labels() {
    assert_eq!(Effect::Earthquake.to_string(), "Earthquake");
    assert_eq!(Effect::FastPlatforms.to_string(), "Fast Platforms");
    assert_eq!(Effect::InverseKeyboard.to_string(), "Inverse Keyboard");
    assert_eq!(Effect::FallthroughPlatforms.to_string(), "Fallthrough Platforms");
    assert_eq!(Effect::HighGravity.to_string(), "High Gravity");
    assert_eq!(Effect::LowGravity.to_string(), "Low Gravity");
    assert_eq!(Effect::Darkness.to_string(), "Darkness");
    assert_eq!(Effect::IcyPlatforms.to_string(), "Icy Platforms");
}

#[test]
fn effect_cue_names_drop_spaces() {
    assert_eq!(Effect::FastPlatforms.cue_name(), "FastPlatforms");
    assert_eq!(Effect::InverseKeyboard.cue_name(), "InverseKeyboard");
    assert_eq!(Effect::Darkness.cue_name(), "Darkness");
    for e in ALL_EFFECTS {
        assert_eq!(e.cue_name(), e.to_string().replace(' ', ""));
    }
}

#[test]
fn gravity_scale_values() {
    assert_eq!(gravity_scale(Some(Effect::HighGravity)), 100);
    assert_eq!(gravity_scale(Some(Effect::LowGravity)), 25);
    assert_eq!(gravity_scale(Some(Effect::Earthquake)), 50);
    assert_eq!(gravity_scale(None), 50);
}

#[test]
fn applier_triggers() {
    assert!(keys_swapped(Some(Effect::InverseKeyboard)));
    assert!(!keys_swapped(Some(Effect::Darkness)));
    assert!(!keys_swapped(None));
    assert!(darkness_active(Some(Effect::Darkness)));
    assert!(!darkness_active(Some(Effect::HighGravity)));
    assert!(icy_platforms_active(Some(Effect::IcyPlatforms)));
    assert!(!icy_platforms_active(None));
}

#[test]
fn camera_snaps_to_centre_without_earthquake() {
    assert_eq!(shake_camera(None, 123, 456, 800, 600), (400, 300));
    assert_eq!(shake_camera(Some(Effect::Darkness), 0, 0, 800, 600), (400, 300));
}

#[test]
fn camera_shake_stays_in_window() {
    for _ in 0..50 {
        let (x, y) = shake_camera(Some(Effect::Earthquake), 400, 300, 800, 600);
        assert!((397..=403).contains(&x));
        assert!((280..=320).contains(&y));
    }
}
