use headesk::chromakey::{
    calibration_tick, converge, reference_samples, ChromaKey, Key, KeySettings,
    CALIBRATION_INTERVAL_MS,
};
use headesk::color::{Color, KeyFilter};

fn bgr_row(pixels: &[(u8, u8, u8)]) -> Vec<u8> {
    let mut v = Vec::new();
    for &(r, g, b) in pixels {
        v.push(b);
        v.push(g);
        v.push(r);
    }
    v
}

fn settings(tolerance_milli: u32) -> KeySettings {
    KeySettings { tolerance_milli, filter: KeyFilter::standard() }
}

#[test]
fn samples_are_the_two_top_corners_in_rgb() {
    let frame: Vec<u8> = vec![10, 10, 10, 50, 60, 200, 70, 65, 205, 12, 9, 11];
    let (s0, s1) = reference_samples(&frame, 4);
    assert_eq!(s0, Color::new(10, 10, 10));
    assert_eq!(s1, Color::new(11, 9, 12));
}

#[test]
fn samples_ignore_later_rows() {
    let mut frame = bgr_row(&[(1, 2, 3), (4, 5, 6)]);
    frame.extend(bgr_row(&[(7, 8, 9), (10, 11, 12)]));
    let (s0, s1) = reference_samples(&frame, 2);
    assert_eq!(s0, Color::new(1, 2, 3));
    assert_eq!(s1, Color::new(4, 5, 6));
}

#[test]
fn samples_of_a_single_pixel_row() {
    let frame = bgr_row(&[(9, 8, 7)]);
    let (s0, s1) = reference_samples(&frame, 1);
    assert_eq!(s0, Color::new(9, 8, 7));
    assert_eq!(s1, Color::new(9, 8, 7));
}

#[test]
fn dark_corners_are_rejected_by_the_filter() {
    let frame: Vec<u8> = vec![10, 10, 10, 50, 60, 200, 70, 65, 205, 12, 9, 11];
    let mut k = ChromaKey::new(settings(7000));
    k.calibrate(&frame, 4, 0);
    assert_eq!(k.key, Key::Disabled);
    assert_eq!(k.key_color(), Color::new(255, 255, 255));
    assert_eq!(k.candidate, Color::new(10, 10, 10));
    assert_eq!(k.last_calibration_ms, Some(0));
}

#[test]
fn dark_corners_converge_before_the_filter() {
    let r = converge(Color::new(10, 10, 10), Color::new(11, 9, 12), Color::black(), 7000);
    assert_eq!(r, Some(Color::new(5, 4, 5)));
}

#[test]
fn new_state_is_disabled_with_black_candidate() {
    let k = ChromaKey::new(KeySettings::standard());
    assert_eq!(k.key, Key::Disabled);
    assert_eq!(k.key_color(), Color::white());
    assert_eq!(k.candidate, Color::black());
    assert_eq!(k.last_calibration_ms, None);
    assert_eq!(k.settings.tolerance_milli, 7000);
}

#[test]
fn black_corners_publish_black_whatever_the_candidate() {
    let frame = bgr_row(&[(0, 0, 0), (255, 0, 0), (0, 0, 0)]);
    let mut k = ChromaKey::new(settings(7000));
    k.candidate = Color::new(0, 0, 200);
    k.key = Key::Armed(Color::new(0, 0, 200));
    k.calibrate(&frame, 3, 500);
    assert_eq!(k.key, Key::Armed(Color::black()));
    assert_eq!(k.key_color(), Color::black());
    assert_eq!(k.candidate, Color::black());
}

#[test]
fn black_corners_win_even_with_zero_tolerance() {
    let r = calibration_tick(Color::black(), Color::black(), Color::white(), settings(0));
    assert_eq!(r, (Key::Armed(Color::black()), Color::black()));
}

#[test]
fn steady_blue_background_arms_on_the_second_tick() {
    let frame = bgr_row(&[(0, 0, 200), (30, 30, 30), (0, 0, 200)]);
    let mut k = ChromaKey::new(settings(7000));
    k.calibrate(&frame, 3, 1000);
    // the black candidate disagrees with blue: keying stays off, the
    // candidate restarts from the top-left corner
    assert_eq!(k.key, Key::Disabled);
    assert_eq!(k.candidate, Color::new(0, 0, 200));
    k.calibrate(&frame, 3, 1000 + CALIBRATION_INTERVAL_MS);
    assert_eq!(k.key, Key::Armed(Color::new(0, 0, 200)));
    assert_eq!(k.key_color(), Color::new(0, 0, 200));
    assert_eq!(k.candidate, Color::new(0, 0, 200));
    assert_eq!(k.last_calibration_ms, Some(1200));
}

#[test]
fn converged_key_is_the_mixed_estimate() {
    let s0 = Color::new(0, 10, 200);
    let s1 = Color::new(0, 12, 204);
    let candidate = Color::new(0, 11, 199);
    let r = calibration_tick(s0, s1, candidate, settings(7000));
    // mix(s0, s1) = (0, 11, 202); mixed with the candidate: (0, 11, 200)
    assert_eq!(r, (Key::Armed(Color::new(0, 11, 200)), Color::new(0, 11, 200)));
}

#[test]
fn diverging_corners_disable_and_reset_the_candidate() {
    let frame = bgr_row(&[(200, 0, 0), (0, 0, 200)]);
    let mut k = ChromaKey::new(settings(7000));
    k.key = Key::Armed(Color::new(0, 0, 200));
    k.candidate = Color::new(0, 0, 200);
    k.last_calibration_ms = Some(100);
    k.calibrate(&frame, 2, 400);
    assert_eq!(k.key, Key::Disabled);
    assert_eq!(k.key_color(), Color::new(255, 255, 255));
    assert_eq!(k.candidate, Color::new(200, 0, 0));
    assert_eq!(k.last_calibration_ms, Some(400));
}

#[test]
fn candidate_disagreeing_with_corners_disables() {
    let r = calibration_tick(
        Color::new(0, 0, 200),
        Color::new(0, 0, 200),
        Color::new(0, 200, 0),
        settings(7000),
    );
    assert_eq!(r, (Key::Disabled, Color::new(0, 0, 200)));
}

#[test]
fn grey_wall_does_not_arm() {
    let grey = Color::new(128, 128, 128);
    let frame = bgr_row(&[(128, 128, 128), (128, 128, 128)]);
    let mut k = ChromaKey::new(settings(7000));
    k.candidate = grey;
    k.calibrate(&frame, 2, 0);
    assert_eq!(k.key, Key::Disabled);
    assert_eq!(k.key_color(), Color::white());
    assert_eq!(k.candidate, grey);
}

#[test]
fn frames_within_the_interval_are_ignored() {
    let blue = bgr_row(&[(0, 0, 200), (0, 0, 200)]);
    let red = bgr_row(&[(200, 0, 0), (0, 200, 0)]);
    let mut k = ChromaKey::new(settings(7000));
    k.candidate = Color::new(0, 0, 200);
    k.calibrate(&blue, 2, 5000);
    let after_first = k;
    assert_eq!(after_first.key, Key::Armed(Color::new(0, 0, 200)));
    k.calibrate(&red, 2, 5000 + CALIBRATION_INTERVAL_MS - 1);
    assert_eq!(k, after_first);
    k.calibrate(&red, 2, 5000 + CALIBRATION_INTERVAL_MS);
    assert_eq!(k.key, Key::Disabled);
    assert_eq!(k.last_calibration_ms, Some(5200));
}

#[test]
fn an_earlier_clock_reading_is_ignored() {
    let frame = bgr_row(&[(200, 0, 0), (0, 200, 0)]);
    let mut k = ChromaKey::new(settings(7000));
    k.last_calibration_ms = Some(10_000);
    let before = k;
    k.calibrate(&frame, 2, 9_000);
    assert_eq!(k, before);
}

#[test]
fn same_corners_and_candidate_give_the_same_outcome() {
    let f1 = bgr_row(&[(0, 0, 200), (1, 2, 3), (0, 1, 201)]);
    let f2 = bgr_row(&[(0, 0, 200), (250, 250, 250), (0, 1, 201)]);
    let mut a = ChromaKey::new(settings(7000));
    let mut b = ChromaKey::new(settings(7000));
    a.candidate = Color::new(0, 0, 199);
    b.candidate = Color::new(0, 0, 199);
    b.key = Key::Armed(Color::new(0, 0, 90));
    b.last_calibration_ms = Some(3);
    a.calibrate(&f1, 3, 77);
    b.calibrate(&f2, 3, 9_999);
    assert_eq!(a.key, b.key);
    assert_eq!(a.candidate, b.candidate);
    assert_eq!(a.key, Key::Armed(Color::new(0, 0, 199)));
}
