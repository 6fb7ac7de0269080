use audiocue::pan::{pan_dir, pan_sample, pan_sample_lr, pan_unit, pan_unit_lr, PanDir, TiltDir};
use audiocue::sound::NextSample;

#[test]
fn channel_classification_table() {
    assert_eq!(pan_dir(1, 0), (PanDir::Center, TiltDir::Center));

    assert_eq!(pan_dir(2, 0), (PanDir::Left, TiltDir::Center));
    assert_eq!(pan_dir(2, 1), (PanDir::Right, TiltDir::Center));

    assert_eq!(pan_dir(3, 0), (PanDir::Left, TiltDir::Center));
    assert_eq!(pan_dir(3, 1), (PanDir::Right, TiltDir::Center));
    assert_eq!(pan_dir(3, 2), (PanDir::Center, TiltDir::Center));

    assert_eq!(pan_dir(4, 0), (PanDir::Left, TiltDir::Front));
    assert_eq!(pan_dir(4, 1), (PanDir::Right, TiltDir::Front));
    assert_eq!(pan_dir(4, 2), (PanDir::Left, TiltDir::Rear));
    assert_eq!(pan_dir(4, 3), (PanDir::Right, TiltDir::Rear));
}

#[test]
fn zero_pan_is_identity() {
    let samples: [i16; 7] = [-32768, -1000, -1, 0, 1, 100, 32767];
    for cc in 1u16..=4 {
        for ch in 0..cc {
            let (d, t) = pan_dir(cc, ch);
            for &s in samples.iter() {
                assert_eq!(pan_sample(s, 0, 0, d, t), s);
                assert_eq!(pan_sample_lr(s, 0, d), s);
            }
        }
    }
}

#[test]
fn zero_pan_identity_on_units() {
    for cc in 1u16..=4 {
        for ch in 0..cc {
            let (u, _) = pan_unit(0, 0, cc, ch, NextSample::Sample(-12345));
            assert_eq!(u, NextSample::Sample(-12345));
            let (u, c) = pan_unit(0, 0, cc, ch, NextSample::MetadataChanged);
            assert_eq!((u, c), (NextSample::MetadataChanged, ch));
        }
    }
}

#[test]
fn full_pan_doubles_and_silences() {
    // pan_lr = 1000 (a full 1.0): left doubled, right silenced.
    assert_eq!(pan_sample(100, 1000, 0, PanDir::Left, TiltDir::Center), 200);
    assert_eq!(pan_sample(100, 1000, 0, PanDir::Right, TiltDir::Center), 0);
    assert_eq!(pan_sample(-100, 1000, 0, PanDir::Left, TiltDir::Center), -200);
    // pan_lr = -1000: the reverse.
    assert_eq!(pan_sample(100, -1000, 0, PanDir::Left, TiltDir::Center), 0);
    assert_eq!(pan_sample(100, -1000, 0, PanDir::Right, TiltDir::Center), 200);
}

#[test]
fn doubling_saturates_at_sample_range() {
    assert_eq!(pan_sample(20000, 1000, 0, PanDir::Left, TiltDir::Center), 32767);
    assert_eq!(pan_sample(-20000, 1000, 0, PanDir::Left, TiltDir::Center), -32768);
    assert_eq!(pan_sample(32767, 1000, 0, PanDir::Left, TiltDir::Center), 32767);
    assert_eq!(pan_sample(-32768, 1000, 0, PanDir::Left, TiltDir::Center), -32768);
}

#[test]
fn truncation_is_toward_zero() {
    // 99 * 1.5 = 148.5 truncates to 148; -99 * 1.5 = -148.5 truncates to -148.
    assert_eq!(pan_sample(99, 500, 0, PanDir::Left, TiltDir::Center), 148);
    assert_eq!(pan_sample(-99, 500, 0, PanDir::Left, TiltDir::Center), -148);
}

#[test]
fn front_back_scales_the_already_panned_value() {
    // Left-front at pan_lr = 500, pan_fb = 500: 100 * 1.5 = 150, then 150 * 1.5 = 225.
    assert_eq!(pan_sample(100, 500, 500, PanDir::Left, TiltDir::Front), 225);
    // Rear at pan_fb = 1000 is silenced whatever the first axis did.
    assert_eq!(pan_sample(100, 500, 1000, PanDir::Left, TiltDir::Rear), 0);
    // The single-axis rule is the first axis alone.
    assert_eq!(pan_sample_lr(100, 500, PanDir::Left), 150);
    assert_eq!(pan_sample_lr(100, 500, PanDir::Right), 50);
    assert_eq!(pan_sample_lr(100, 500, PanDir::Center), 100);
}

#[test]
fn markers_do_not_advance_the_counter() {
    for marker in [NextSample::MetadataChanged, NextSample::Paused, NextSample::Finished] {
        let (u, c) = pan_unit(700, -300, 4, 2, marker);
        assert_eq!(u, marker);
        assert_eq!(c, 2);
        let (u, c) = pan_unit_lr(700, 4, 2, marker);
        assert_eq!(u, marker);
        assert_eq!(c, 2);
    }
}

#[test]
fn counter_cycles_with_period_channel_count() {
    for cc in 1u16..=4 {
        let mut ch: u16 = 0;
        let mut seen: Vec<u16> = Vec::new();
        for _ in 0..2 * cc {
            seen.push(ch);
            let (_, next) = pan_unit(0, 0, cc, ch, NextSample::Sample(1));
            ch = next;
        }
        // Two full cycles through 0..cc, in order.
        for (i, &c) in seen.iter().enumerate() {
            assert_eq!(c, (i as u16) % cc);
        }
        assert_eq!(ch, 0);
    }
}
