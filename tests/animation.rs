use led_echo::animation::{brightness, FadeState, MAX_STEP, MIN_STEP};
use led_echo::glyph::{blank_frame, ch_to_matrix, Frame};

fn level_of(f: &Frame) -> u8 {
    f.rows.iter().flatten().copied().max().unwrap()
}

#[test]
fn animation_brightness_ramp() {
    assert_eq!(brightness(24), 9);
    assert_eq!(brightness(9), 9);
    assert_eq!(brightness(8), 8);
    assert_eq!(brightness(4), 4);
    assert_eq!(brightness(0), 0);
}

#[test]
fn animation_idle_is_blank() {
    let mut s = FadeState::new();
    for _ in 0..40 {
        assert_eq!(s.tick(None), blank_frame());
    }
    assert_eq!(s.ch, None);
}

#[test]
fn animation_new_byte_drawn_full() {
    let mut s = FadeState::new();
    let f = s.tick(Some(b'H'));
    assert_eq!(f, ch_to_matrix(Some(b'H'), 9));
    assert_eq!(s.ch, Some(b'H'));
    assert_eq!(s.step, MAX_STEP - 1);
}

#[test]
fn animation_fades_then_resets() {
    let mut s = FadeState::new();
    let mut levels: Vec<u8> = Vec::new();
    levels.push(level_of(&s.tick(Some(b'A'))));
    loop {
        let f = s.tick(None);
        if s.ch.is_none() {
            assert_eq!(f, blank_frame());
            break;
        }
        assert_eq!(f, ch_to_matrix(Some(b'A'), level_of(&f)));
        levels.push(level_of(&f));
    }
    for w in levels.windows(2) {
        assert!(w[1] <= w[0]);
    }
    assert!(levels.iter().all(|l| *l <= 9));
    assert_eq!(levels.len(), (MAX_STEP - MIN_STEP) as usize);
    assert_eq!(levels[0], 9);
    assert_eq!(*levels.last().unwrap(), 4);
    assert_eq!(s.step, MAX_STEP - 1);
}

#[test]
fn animation_repeat_blinks() {
    let mut s = FadeState::new();
    s.tick(Some(b'k'));
    for _ in 0..17 {
        s.tick(None);
    }
    assert_eq!(s.step, 6);
    assert_eq!(s.tick(Some(b'k')), blank_frame());
    assert_eq!(s.tick(None), ch_to_matrix(Some(b'k'), 9));
    assert_eq!(s.ch, Some(b'k'));
}

#[test]
fn animation_other_byte_replaces() {
    let mut s = FadeState::new();
    s.tick(Some(b'a'));
    s.tick(None);
    assert_eq!(s.tick(Some(b'b')), ch_to_matrix(Some(b'b'), 9));
    assert_eq!(s.ch, Some(b'b'));
}

#[test]
fn animation_at_min_step_forgets() {
    let mut s = FadeState { step: MIN_STEP, ch: Some(b'z') };
    assert_eq!(s.tick(None), blank_frame());
    assert_eq!(s.ch, None);
    assert_eq!(s.step, MAX_STEP - 1);
}

#[test]
fn animation_run_out_fade_redraws_same_byte() {
    let mut s = FadeState { step: MIN_STEP, ch: Some(b'A') };
    assert_eq!(s.tick(Some(b'A')), ch_to_matrix(Some(b'A'), 9));
    assert_eq!(s.ch, Some(b'A'));
    assert_eq!(s.step, MAX_STEP - 1);
}

#[test]
fn animation_low_steps_reset() {
    let mut s = FadeState { step: 0, ch: Some(b'q') };
    assert_eq!(s.tick(None), blank_frame());
    assert_eq!(s.ch, None);
    assert_eq!(s.step, MAX_STEP - 1);
    let mut t = FadeState { step: 2, ch: None };
    assert_eq!(t.tick(Some(b'r')), ch_to_matrix(Some(b'r'), 9));
    assert_eq!(t.ch, Some(b'r'));
}
