use break_time::activity::{menu_keys, ActivityDetector, Key, MenuKeys, PointerSample};
use break_time::time::{Span, Timestamp};

fn at(millis: i64) -> Timestamp {
    Timestamp::from_millis(millis)
}

fn window() -> Span {
    Span::from_millis(5_000)
}

fn seen(pointer: PointerSample) -> ActivityDetector {
    let mut detector = ActivityDetector::new();
    detector.observe(pointer, &Vec::new(), at(0), window());
    detector
}

#[test]
fn new_detector_has_seen_nothing() {
    let detector = ActivityDetector::new();
    assert_eq!(detector.previous_pointer, None);
    assert_eq!(detector.moved_at, None);
    assert_eq!(detector.key_pressed_at, None);
    assert!(!detector.is_active(at(0), window()));
}

#[test]
fn pointer_moving_two_units_refreshes_moved_at() {
    let mut detector = seen(PointerSample::new(0, 0));
    let active = detector.observe(PointerSample::new(2, 0), &Vec::new(), at(1_000), window());
    assert_eq!(detector.moved_at, Some(at(1_000)));
    assert_eq!(detector.previous_pointer, Some(PointerSample::new(2, 0)));
    assert!(active);
}

#[test]
fn pointer_moving_one_unit_does_not_refresh_moved_at() {
    let mut detector = seen(PointerSample::new(0, 0));
    let active = detector.observe(PointerSample::new(0, 1), &Vec::new(), at(1_000), window());
    assert_eq!(detector.moved_at, None);
    assert_eq!(detector.previous_pointer, Some(PointerSample::new(0, 1)));
    assert!(!active);
}

#[test]
fn pointer_at_rest_does_not_refresh_moved_at() {
    let mut detector = seen(PointerSample::new(40, -7));
    detector.observe(PointerSample::new(40, -7), &Vec::new(), at(1_000), window());
    assert_eq!(detector.moved_at, None);
}

#[test]
fn pointer_moving_one_unit_each_way_refreshes_moved_at() {
    let mut detector = seen(PointerSample::new(10, 10));
    detector.observe(PointerSample::new(9, 11), &Vec::new(), at(1_000), window());
    assert_eq!(detector.moved_at, Some(at(1_000)));
}

#[test]
fn first_sample_sets_the_baseline_only() {
    let mut detector = ActivityDetector::new();
    let active = detector.observe(PointerSample::new(1_920, 1_080), &Vec::new(), at(50), window());
    assert!(!active);
    assert_eq!(detector.moved_at, None);
    assert_eq!(detector.previous_pointer, Some(PointerSample::new(1_920, 1_080)));
}

#[test]
fn movement_is_measured_from_the_sample_before() {
    let mut detector = seen(PointerSample::new(0, 0));
    detector.observe(PointerSample::new(1, 0), &Vec::new(), at(10), window());
    detector.observe(PointerSample::new(2, 0), &Vec::new(), at(20), window());
    assert_eq!(detector.moved_at, None);
    detector.observe(PointerSample::new(0, 0), &Vec::new(), at(30), window());
    assert_eq!(detector.moved_at, Some(at(30)));
}

#[test]
fn farthest_pointer_samples_do_not_overflow() {
    let far = PointerSample::new(i32::MAX, i32::MAX);
    let near = PointerSample::new(i32::MIN, i32::MIN);
    assert!(far.moved_from(near));
    assert!(near.moved_from(far));
    assert!(!far.moved_from(far));
    assert!(!PointerSample::new(i32::MIN, 0).moved_from(PointerSample::new(i32::MIN + 1, 0)));
}

#[test]
fn held_key_refreshes_key_pressed_at() {
    let mut detector = ActivityDetector::new();
    let active = detector.observe(PointerSample::new(0, 0), &vec![Key::Other], at(700), window());
    assert_eq!(detector.key_pressed_at, Some(at(700)));
    assert_eq!(detector.moved_at, None);
    assert!(active);
}

#[test]
fn no_key_leaves_key_pressed_at() {
    let mut detector = ActivityDetector::new();
    detector.observe(PointerSample::new(0, 0), &vec![Key::Slash], at(700), window());
    let active = detector.observe(PointerSample::new(0, 0), &Vec::new(), at(900), window());
    assert_eq!(detector.key_pressed_at, Some(at(700)));
    assert!(active);
}

#[test]
fn activity_lasts_for_the_window_and_no_longer() {
    let mut detector = ActivityDetector::new();
    detector.observe(PointerSample::new(0, 0), &vec![Key::Other], at(1_000), window());
    assert!(detector.is_active(at(1_000), window()));
    assert!(detector.is_active(at(5_999), window()));
    assert!(!detector.is_active(at(6_000), window()));
    assert!(!detector.is_active(at(1_000), Span::from_millis(0)));
    let still = detector.observe(PointerSample::new(0, 0), &Vec::new(), at(6_000), window());
    assert!(!still);
}

#[test]
fn either_input_keeps_the_user_active() {
    let detector = ActivityDetector {
        previous_pointer: None,
        moved_at: Some(at(9_000)),
        key_pressed_at: Some(at(1_000)),
    };
    assert!(detector.is_active(at(10_000), window()));
    let detector = ActivityDetector {
        previous_pointer: None,
        moved_at: Some(at(1_000)),
        key_pressed_at: Some(at(9_000)),
    };
    assert!(detector.is_active(at(10_000), window()));
    let detector = ActivityDetector {
        previous_pointer: None,
        moved_at: Some(at(1_000)),
        key_pressed_at: Some(at(2_000)),
    };
    assert!(!detector.is_active(at(10_000), window()));
}

#[test]
fn menu_keys_are_found_among_the_keys() {
    assert_eq!(menu_keys(&Vec::new()), MenuKeys { slash: false, back_slash: false });
    assert_eq!(menu_keys(&vec![Key::Other, Key::Other]), MenuKeys { slash: false, back_slash: false });
    assert_eq!(menu_keys(&vec![Key::Other, Key::Slash]), MenuKeys { slash: true, back_slash: false });
    assert_eq!(menu_keys(&vec![Key::BackSlash]), MenuKeys { slash: false, back_slash: true });
    assert_eq!(
        menu_keys(&vec![Key::BackSlash, Key::Other, Key::Slash, Key::Slash]),
        MenuKeys { slash: true, back_slash: true }
    );
}

#[test]
fn menu_combination_takes_both_keys() {
    assert!(MenuKeys { slash: true, back_slash: true }.complete());
    assert!(!MenuKeys { slash: true, back_slash: false }.complete());
    assert!(!MenuKeys { slash: false, back_slash: true }.complete());
    assert!(!MenuKeys { slash: false, back_slash: false }.complete());
}
