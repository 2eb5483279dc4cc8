use microbit::button::Debounce;
use microbit::Button;

#[test]
fn press_registers_on_ninth_sample() {
    let mut d = Debounce::new();
    for k in 1..=8u8 {
        assert!(!d.sample(true));
        assert_eq!(d.sigma, k);
    }
    assert!(d.sample(true));
    assert_eq!(d.sigma, 9);
    assert!(d.latched);
    for _ in 0..20 {
        assert!(!d.sample(true));
    }
    assert_eq!(d.sigma, 12);
}

#[test]
fn sigma_stays_in_range() {
    let mut d = Debounce::new();
    for _ in 0..5 {
        assert!(!d.sample(false));
    }
    assert_eq!(d.sigma, 0);
    for _ in 0..30 {
        d.sample(true);
    }
    assert_eq!(d.sigma, 12);
}

#[test]
fn short_release_keeps_latch() {
    let mut d = Debounce::new();
    for _ in 0..9 {
        d.sample(true);
    }
    assert!(d.latched);
    for _ in 0..6 {
        assert!(!d.sample(false));
    }
    assert!(d.latched);
    assert_eq!(d.sigma, 3);
    for _ in 0..20 {
        assert!(!d.sample(true));
    }
    assert!(d.latched);
}

#[test]
fn full_release_then_new_press() {
    let mut d = Debounce::new();
    for _ in 0..9 {
        d.sample(true);
    }
    for _ in 0..8 {
        d.sample(false);
    }
    assert_eq!(d.sigma, 1);
    assert!(!d.latched);
    let mut presses = 0;
    for k in 1..=9 {
        if d.sample(true) {
            presses += 1;
            assert_eq!(k, 8);
        }
    }
    assert_eq!(presses, 1);
}

#[test]
fn noise_does_not_press() {
    let mut d = Debounce::new();
    for _ in 0..50 {
        assert!(!d.sample(true));
        assert!(!d.sample(false));
    }
}

#[test]
fn was_pressed_collapses_presses() {
    let mut b = Button::new();
    assert!(!b.was_pressed(0));
    assert!(b.was_pressed(2));
    assert!(!b.was_pressed(2));
    assert!(b.was_pressed(3));
    assert_eq!(b.last_press_count, 3);
}
