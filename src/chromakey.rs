//! The calibration state: which colour is currently keyed out, and how each
//! new frame updates it.
use vstd::prelude::*;

use crate::color::{
    black, is_plausible, is_similar, lemma_mix_with_itself, lemma_similar_to_itself, mix, mixed,
    plausible, similar, white, Color, KeyFilter,
};

verus! {

/// Calibration runs at most once per this many milliseconds.
pub const CALIBRATION_INTERVAL_MS: u64 = 200;

/// The tolerance, in thousandths of a chroma unit, of the standard settings.
pub const STANDARD_TOLERANCE_MILLI: u32 = 7000;

/// Pixel `i` of a row-major BGR frame, with its channels put in RGB order.
pub open spec fn pixel_at(frame: Seq<u8>, i: int) -> Color {
    Color { r: frame[3 * i + 2], g: frame[3 * i + 1], b: frame[3 * i] }
}

/// A frame buffer holds a whole first row of `width` pixels.
pub open spec fn holds_row(frame: Seq<u8>, width: int) -> bool {
    1 <= width && 3 * width <= frame.len()
}

/// The two reference samples of a frame: its top-left pixel and the last pixel
/// of its first row.
pub fn reference_samples(frame: &[u8], width: usize) -> (r: (Color, Color))
    requires
        holds_row(frame@, width as int),
    ensures
        r.0 == pixel_at(frame@, 0),
        r.1 == pixel_at(frame@, width - 1),
{
    let len: usize = frame.len();
    assert(3 * width <= len);
    let last: usize = width * 3 - 3;
    let top_left = Color { r: frame[2], g: frame[1], b: frame[0] };
    let top_right = Color { r: frame[last + 2], g: frame[last + 1], b: frame[last] };
    (top_left, top_right)
}

/// What the renderer keys out: nothing, or one background colour.
#[derive(Clone, Copy, Debug, PartialEq, Eq, Structural)]
pub enum Key {
    Disabled,
    Armed(Color),
}

impl Key {
    /// The colour handed to the renderer, which reads pure white as "key nothing".
    pub open spec fn published(self) -> Color {
        match self {
            Key::Disabled => white(),
            Key::Armed(c) => c,
        }
    }

    pub fn color(&self) -> (c: Color)
        ensures
            c == self.published(),
    {
        match self {
            Key::Disabled => Color::white(),
            Key::Armed(c) => *c,
        }
    }
}

/// The tuned constants of the calibration.
#[derive(Clone, Copy, Debug, PartialEq, Eq, Structural)]
pub struct KeySettings {
    /// The chroma distance, in thousandths, under which two colours agree.
    pub tolerance_milli: u32,
    /// The filter that a converged estimate must pass.
    pub filter: KeyFilter,
}

impl KeySettings {
    pub fn standard() -> (s: KeySettings)
        ensures
            s.tolerance_milli == STANDARD_TOLERANCE_MILLI,
            s.filter == (KeyFilter { min_saturation_percent: 20, min_value: 80, max_red: 80 }),
    {
        KeySettings { tolerance_milli: STANDARD_TOLERANCE_MILLI, filter: KeyFilter::standard() }
    }
}

/// The sequential convergence of `[s0, s1, candidate]`: starting from `s0`,
/// each further sample must agree with the running estimate, and is then mixed
/// into it. `None` when the samples reach no consensus.
pub open spec fn converged(s0: Color, s1: Color, candidate: Color, tolerance_milli: u32) -> Option<
    Color,
> {
    if !is_similar(s0, s1, tolerance_milli) {
        None
    } else if !is_similar(mixed(s0, s1), candidate, tolerance_milli) {
        None
    } else {
        Some(mixed(mixed(s0, s1), candidate))
    }
}

/// One calibration tick: the new key and the new candidate.
pub open spec fn tick(s0: Color, s1: Color, candidate: Color, settings: KeySettings) -> (Key, Color) {
    if s0 == black() && s1 == black() {
        (Key::Armed(black()), black())
    } else {
        match converged(s0, s1, candidate, settings.tolerance_milli) {
            Some(m) => if is_plausible(m, settings.filter) {
                (Key::Armed(m), m)
            } else {
                (Key::Disabled, s0)
            },
            None => (Key::Disabled, s0),
        }
    }
}

/// Runs the convergence test on the two corner samples and the candidate.
pub fn converge(s0: Color, s1: Color, candidate: Color, tolerance_milli: u32) -> (r: Option<Color>)
    ensures
        r == converged(s0, s1, candidate, tolerance_milli),
{
    let samples: [Color; 3] = [s0, s1, candidate];
    let mut result = s0;
    let mut i: usize = 1;
    while i < 3
        invariant
            1 <= i <= 3,
            samples@ == seq![s0, s1, candidate],
            i == 2 ==> is_similar(s0, s1, tolerance_milli) && result == mixed(s0, s1),
            i == 3 ==> converged(s0, s1, candidate, tolerance_milli) == Some(result),
            i == 1 ==> result == s0,
        decreases 3 - i,
    {
        if !similar(result, samples[i], tolerance_milli) {
            return None;
        }
        result = mix(result, samples[i]);
        i = i + 1;
    }
    Some(result)
}

/// Decides the new key and candidate from the two corner samples and the
/// previous candidate.
pub fn calibration_tick(s0: Color, s1: Color, candidate: Color, settings: KeySettings) -> (r: (
    Key,
    Color,
))
    ensures
        r == tick(s0, s1, candidate, settings),
{
    let zero = Color::black();
    if s0 == zero && s1 == zero {
        return (Key::Armed(zero), zero);
    }
    match converge(s0, s1, candidate, settings.tolerance_milli) {
        Some(m) => if plausible(m, settings.filter) {
            (Key::Armed(m), m)
        } else {
            (Key::Disabled, s0)
        },
        None => (Key::Disabled, s0),
    }
}

/// The calibration state that the render loop owns for the lifetime of the
/// window.
#[derive(Clone, Copy, Debug, PartialEq, Eq, Structural)]
pub struct ChromaKey {
    /// The key currently published to the renderer.
    pub key: Key,
    /// The best guess of the previous tick.
    pub candidate: Color,
    /// The clock reading, in milliseconds, of the last tick; `None` before the
    /// first, so that the first frame calibrates at once.
    pub last_calibration_ms: Option<u64>,
    pub settings: KeySettings,
}

impl ChromaKey {
    /// A published key is either no key, pure black, or an estimate that
    /// passed the plausibility filter.
    pub open spec fn wf(self) -> bool {
        match self.key {
            Key::Disabled => true,
            Key::Armed(c) => c == black() || is_plausible(c, self.settings.filter),
        }
    }

    /// Whether a frame that arrives at `now_ms` is calibrated against.
    pub open spec fn is_due(self, now_ms: u64) -> bool {
        match self.last_calibration_ms {
            None => true,
            Some(t) => now_ms >= t + CALIBRATION_INTERVAL_MS,
        }
    }

    /// The state after a frame arrives at `now_ms`.
    pub open spec fn calibrated(self, frame: Seq<u8>, width: int, now_ms: u64) -> ChromaKey {
        if self.is_due(now_ms) {
            let (key, candidate) = tick(
                pixel_at(frame, 0),
                pixel_at(frame, width - 1),
                self.candidate,
                self.settings,
            );
            ChromaKey { key, candidate, last_calibration_ms: Some(now_ms), settings: self.settings }
        } else {
            self
        }
    }

    /// A fresh state: no key, a black candidate, and no tick yet.
    pub fn new(settings: KeySettings) -> (k: ChromaKey)
        ensures
            k == (ChromaKey {
                key: Key::Disabled,
                candidate: black(),
                last_calibration_ms: None,
                settings,
            }),
            k.wf(),
    {
        ChromaKey {
            key: Key::Disabled,
            candidate: Color::black(),
            last_calibration_ms: None,
            settings,
        }
    }

    /// Feeds one frame, read at `now_ms`, to the calibration. Frames that
    /// arrive within the calibration interval of the last tick leave the state
    /// as it is.
    pub fn calibrate(&mut self, frame: &[u8], width: usize, now_ms: u64)
        requires
            holds_row(frame@, width as int),
        ensures
            *final(self) == old(self).calibrated(frame@, width as int, now_ms),
            old(self).wf() ==> final(self).wf(),
    {
        let due = match self.last_calibration_ms {
            None => true,
            Some(t) => now_ms >= t && now_ms - t >= CALIBRATION_INTERVAL_MS,
        };
        if !due {
            return;
        }
        let (s0, s1) = reference_samples(frame, width);
        let (key, candidate) = calibration_tick(s0, s1, self.candidate, self.settings);
        self.key = key;
        self.candidate = candidate;
        self.last_calibration_ms = Some(now_ms);
    }

    /// The colour to key out, pure white when keying is disabled.
    pub fn key_color(&self) -> (c: Color)
        ensures
            c == self.key.published(),
    {
        self.key.color()
    }
}

/// A tick's outcome is a function of the two corner samples, the previous
/// candidate and the settings: the previous key, the rest of the frame and the
/// clock reading do not enter it.
pub proof fn lemma_tick_determined_by_samples(
    a: ChromaKey,
    b: ChromaKey,
    frame_a: Seq<u8>,
    width_a: int,
    now_a: u64,
    frame_b: Seq<u8>,
    width_b: int,
    now_b: u64,
)
    requires
        holds_row(frame_a, width_a),
        holds_row(frame_b, width_b),
        a.is_due(now_a),
        b.is_due(now_b),
        pixel_at(frame_a, 0) == pixel_at(frame_b, 0),
        pixel_at(frame_a, width_a - 1) == pixel_at(frame_b, width_b - 1),
        a.candidate == b.candidate,
        a.settings == b.settings,
    ensures
        a.calibrated(frame_a, width_a, now_a).key == b.calibrated(frame_b, width_b, now_b).key,
        a.calibrated(frame_a, width_a, now_a).candidate == b.calibrated(
            frame_b,
            width_b,
            now_b,
        ).candidate,
{
}

/// When both corner samples are pure black, a tick publishes pure black,
/// whatever the candidate.
pub proof fn lemma_black_corners(k: ChromaKey, frame: Seq<u8>, width: int, now_ms: u64)
    requires
        holds_row(frame, width),
        k.is_due(now_ms),
        pixel_at(frame, 0) == black(),
        pixel_at(frame, width - 1) == black(),
    ensures
        k.calibrated(frame, width, now_ms).key.published() == black(),
{
}

/// When both corner samples equal the candidate, and that colour passes the
/// filter, a tick publishes that colour (for any positive tolerance).
pub proof fn lemma_steady_background(k: ChromaKey, frame: Seq<u8>, width: int, now_ms: u64)
    requires
        holds_row(frame, width),
        k.is_due(now_ms),
        k.settings.tolerance_milli > 0,
        pixel_at(frame, 0) == k.candidate,
        pixel_at(frame, width - 1) == k.candidate,
        is_plausible(k.candidate, k.settings.filter),
    ensures
        k.calibrated(frame, width, now_ms).key.published() == k.candidate,
        k.calibrated(frame, width, now_ms).candidate == k.candidate,
{
    lemma_similar_to_itself(k.candidate, k.settings.tolerance_milli);
    lemma_mix_with_itself(k.candidate);
}

/// When the two corner samples disagree, a tick disables keying and restarts
/// from the top-left sample, whatever the state before (for any positive
/// tolerance).
pub proof fn lemma_divergence_resets(k: ChromaKey, frame: Seq<u8>, width: int, now_ms: u64)
    requires
        holds_row(frame, width),
        k.is_due(now_ms),
        k.settings.tolerance_milli > 0,
        !is_similar(pixel_at(frame, 0), pixel_at(frame, width - 1), k.settings.tolerance_milli),
    ensures
        k.calibrated(frame, width, now_ms).key == Key::Disabled,
        k.calibrated(frame, width, now_ms).key.published() == white(),
        k.calibrated(frame, width, now_ms).candidate == pixel_at(frame, 0),
{
    lemma_similar_to_itself(black(), k.settings.tolerance_milli);
}

/// After a tick, a second frame that arrives within the calibration interval
/// leaves the key, the candidate and the clock reading as they are.
pub proof fn lemma_throttle(
    k: ChromaKey,
    first: Seq<u8>,
    first_width: int,
    first_ms: u64,
    second: Seq<u8>,
    second_width: int,
    second_ms: u64,
)
    requires
        holds_row(first, first_width),
        holds_row(second, second_width),
        k.is_due(first_ms),
        second_ms < first_ms + CALIBRATION_INTERVAL_MS,
    ensures
        ({
            let after = k.calibrated(first, first_width, first_ms);
            after.calibrated(second, second_width, second_ms) == after
        }),
{
}

/// A consensus that fails the plausibility filter does not arm the key: unless
/// both corners are pure black, keying is disabled.
pub proof fn lemma_implausible_stays_disabled(
    k: ChromaKey,
    frame: Seq<u8>,
    width: int,
    now_ms: u64,
    m: Color,
)
    requires
        holds_row(frame, width),
        k.is_due(now_ms),
        !(pixel_at(frame, 0) == black() && pixel_at(frame, width - 1) == black()),
        converged(pixel_at(frame, 0), pixel_at(frame, width - 1), k.candidate, k.settings.tolerance_milli)
            == Some(m),
        !is_plausible(m, k.settings.filter),
    ensures
        k.calibrated(frame, width, now_ms).key == Key::Disabled,
{
}

} // verus!
