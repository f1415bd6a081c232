//! The waveform engine: a stateless map from a movement, a tempo and the time
//! since the scene was activated to one channel value.
//!
//! All timing is exact integer arithmetic. Time is counted in ticks, where one
//! millisecond is `100 * bpm` ticks: in that unit a beat lasts 6 000 000 ticks
//! and every percentage of a beat or of a movement is a whole number.

use vstd::prelude::*;

verus! {

/// Largest denominator a [`Fraction`] can have: 2^48.
pub const MAX_SPAN: u64 = 0x1_0000_0000_0000;

/// Denominator of the levels held in a [`SineTable`].
pub const LEVEL_SCALE: u64 = 65535;

/// Ticks in one beat, at any tempo.
pub const BEAT_TICKS: u64 = 6_000_000;

/// The outline that a movement follows over one period.
#[derive(Clone, Copy, PartialEq, Eq, Debug, Structural)]
pub enum Shape {
    Saw,
    Sine,
    Square,
    Triangle,
}

impl Shape {
    /// The shape's name, as it is written in logs.
    pub fn name(&self) -> (name: String)
        ensures
            name@ == match *self {
                Shape::Saw => "Saw"@,
                Shape::Sine => "Sine"@,
                Shape::Square => "Square"@,
                Shape::Triangle => "Triangle"@,
            },
    {
        match self {
            Shape::Saw => "Saw".to_owned(),
            Shape::Sine => "Sine".to_owned(),
            Shape::Square => "Square".to_owned(),
            Shape::Triangle => "Triangle".to_owned(),
        }
    }
}

/// A rational number between 0 and 1: a phase within a period, or the height
/// of a shape at a phase.
#[derive(Clone, Copy, Debug)]
pub struct Fraction {
    num: u64,
    den: u64,
}

impl Fraction {
    #[verifier::type_invariant]
    closed spec fn inv(self) -> bool {
        self.wf()
    }

    /// The denominator is positive and at most 2^48, and the value is at most 1.
    pub closed spec fn wf(self) -> bool {
        0 < self.den <= MAX_SPAN && self.num <= self.den
    }

    pub closed spec fn num(self) -> int {
        self.num as int
    }

    pub closed spec fn den(self) -> int {
        self.den as int
    }

    /// `num / den`, if that is a fraction this type can hold.
    pub fn new(num: u64, den: u64) -> (fraction: Option<Fraction>)
        ensures
            fraction is Some <==> 0 < den <= MAX_SPAN && num <= den,
            fraction is Some ==> fraction.unwrap().wf() && fraction.unwrap().num() == num
                && fraction.unwrap().den() == den,
    {
        if 0 < den && den <= MAX_SPAN && num <= den {
            Some(Fraction { num, den })
        } else {
            None
        }
    }

    pub fn numerator(&self) -> (n: u64)
        ensures
            n == self.num(),
            self.wf(),
    {
        proof {
            use_type_invariant(self);
        }
        self.num
    }

    pub fn denominator(&self) -> (d: u64)
        ensures
            d == self.den(),
            self.wf(),
    {
        proof {
            use_type_invariant(self);
        }
        self.den
    }

    /// What `wf` means over the numerator and the denominator.
    pub proof fn lemma_wf(self)
        ensures
            self.wf() <==> 0 < self.den() <= MAX_SPAN && 0 <= self.num() <= self.den(),
    {
    }
}

/// One period of the sine shape, sampled at equal steps. The library reads
/// the table and cannot compute it: the caller fills sample `i` of `n` with
/// `65535 * (1 - cos(2 * pi * i / n)) / 2`.
pub struct SineTable {
    samples: Vec<u16>,
}

impl View for SineTable {
    type V = Seq<u16>;

    closed spec fn view(&self) -> Seq<u16> {
        self.samples@
    }
}

/// The sample of a table of `len` entries that covers the phase `num / den`.
pub open spec fn sine_slot(len: int, num: int, den: int) -> int {
    ((num * len) / den) % len
}

impl SineTable {
    #[verifier::type_invariant]
    closed spec fn inv(self) -> bool {
        self.samples@.len() > 0
    }

    /// A table over the given samples; `None` if there are none.
    pub fn new(samples: Vec<u16>) -> (table: Option<SineTable>)
        ensures
            table is Some <==> samples@.len() > 0,
            table is Some ==> table.unwrap()@ == samples@,
    {
        if samples.len() > 0 {
            Some(SineTable { samples })
        } else {
            None
        }
    }

    /// Number of samples in the period.
    pub fn len(&self) -> (n: usize)
        ensures
            n == self@.len(),
            n > 0,
    {
        proof {
            use_type_invariant(self);
        }
        self.samples.len()
    }

    /// The sample that covers `position`.
    pub fn level_at(&self, position: &Fraction) -> (level: u16)
        ensures
            self@.len() > 0,
            0 <= sine_slot(self@.len() as int, position.num(), position.den()) < self@.len(),
            level == self@[sine_slot(self@.len() as int, position.num(), position.den())],
    {
        proof {
            use_type_invariant(self);
        }
        let len: usize = self.samples.len();
        let num: u64 = position.numerator();
        let den: u64 = position.denominator();
        proof {
            position.lemma_wf();
            lemma_mul_bound(num as int, len as int, MAX_SPAN as int, usize::MAX as int);
        }
        let scaled: u128 = (num as u128) * (len as u128);
        let slot: u128 = (scaled / (den as u128)) % (len as u128);
        self.samples[slot as usize]
    }
}

/// A product of two bounded naturals is bounded by the product of the bounds.
pub proof fn lemma_mul_bound(a: int, b: int, a_max: int, b_max: int)
    requires
        0 <= a <= a_max,
        0 <= b <= b_max,
    ensures
        0 <= a * b <= a_max * b_max,
{
    assert(0 <= a * b <= a_max * b_max) by (nonlinear_arith)
        requires
            0 <= a <= a_max,
            0 <= b <= b_max,
    ;
}

/// What a movement is made from. Every field is a plain value; a field that is
/// `None` takes its default when the movement is built.
#[derive(Clone, Copy, Debug)]
pub struct MovementSettings {
    pub shape: Shape,
    /// Lowest and highest value the movement may put out.
    pub min: u8,
    pub max: u8,
    /// Ends of the curve before it is cut to `min` and `max`; they may lie
    /// outside, which sharpens the edges.
    pub curve_min: Option<i64>,
    pub curve_max: Option<i64>,
    /// Length of one period, in milliseconds or in percent of a beat.
    pub duration_ms: Option<u32>,
    pub duration_percentage: Option<u32>,
    /// Head start of the period, in milliseconds or in percent of the period.
    pub delay_ms: Option<u32>,
    pub delay_percentage: Option<u32>,
    /// Reserved; it does not change the value.
    pub repetition: u8,
    pub reverse: bool,
}

/// The settings with their defaults filled in: `min` is lowered to `max` if it
/// lay above, the curve ends default to `min` and `max`, the period to four
/// beats and the delay to nothing.
pub open spec fn normalized(s: MovementSettings) -> MovementSettings {
    let min = if s.max < s.min {
        s.max
    } else {
        s.min
    };
    MovementSettings {
        shape: s.shape,
        min: min,
        max: s.max,
        curve_min: Some(
            match s.curve_min {
                Some(v) => v,
                None => min as i64,
            },
        ),
        curve_max: Some(
            match s.curve_max {
                Some(v) => v,
                None => s.max as i64,
            },
        ),
        duration_ms: s.duration_ms,
        duration_percentage: if s.duration_ms is None && s.duration_percentage is None {
            Some(400u32)
        } else {
            s.duration_percentage
        },
        delay_ms: s.delay_ms,
        delay_percentage: if s.delay_ms is None && s.delay_percentage is None {
            Some(0u32)
        } else {
            s.delay_percentage
        },
        repetition: s.repetition,
        reverse: s.reverse,
    }
}

/// Settings that `normalized` leaves as they are.
pub open spec fn is_normal(s: MovementSettings) -> bool {
    &&& s.min <= s.max
    &&& s.curve_min is Some
    &&& s.curve_max is Some
    &&& s.duration_ms is Some || s.duration_percentage is Some
    &&& s.delay_ms is Some || s.delay_percentage is Some
}

/// Ticks in one millisecond at the given tempo.
pub open spec fn tick_unit(bpm: u8) -> int {
    100 * bpm
}

/// Length of one period in ticks: the explicit milliseconds, else the
/// percentage of a beat, else four beats.
pub open spec fn duration_ticks(s: MovementSettings, bpm: u8) -> int {
    match s.duration_ms {
        Some(ms) => ms * tick_unit(bpm),
        None => match s.duration_percentage {
            Some(percent) => 60000 * percent,
            None => 4 * BEAT_TICKS,
        },
    }
}

/// Head start in ticks: the explicit milliseconds, else the percentage of the
/// period, else none.
pub open spec fn delay_ticks(s: MovementSettings, bpm: u8) -> int {
    match s.delay_ms {
        Some(ms) => ms * tick_unit(bpm),
        None => match s.delay_percentage {
            Some(percent) => (duration_ticks(s, bpm) / 100) * percent,
            None => 0,
        },
    }
}

/// Denominator of the phase: the period, or 1 where the period is empty.
pub open spec fn phase_span(s: MovementSettings, bpm: u8) -> int {
    if duration_ticks(s, bpm) == 0 {
        1
    } else {
        duration_ticks(s, bpm)
    }
}

/// Numerator of the phase: how far into the current period the movement is
/// after `elapsed_ms`. A movement with an empty period stays at its start,
/// and at a tempo of 0 a millisecond is no tick: time stands still.
pub open spec fn phase_ticks(s: MovementSettings, bpm: u8, elapsed_ms: int) -> int {
    if duration_ticks(s, bpm) == 0 {
        0
    } else {
        (elapsed_ms * tick_unit(bpm) + delay_ticks(s, bpm)) % duration_ticks(s, bpm)
    }
}

/// Saw: the phase itself; falling from 1 when reversed.
pub open spec fn saw_level(num: int, den: int, reverse: bool) -> int {
    if reverse {
        den - num
    } else {
        num
    }
}

/// Square: 0 below half of the period and 1 from there on; swapped when
/// reversed. The result is the numerator over `den`.
pub open spec fn square_level(num: int, den: int, reverse: bool) -> int {
    if (2 * num >= den) != reverse {
        den
    } else {
        0
    }
}

/// Triangle: up from 0 to 1 over the first half, back down over the second;
/// mirrored when reversed.
pub open spec fn triangle_level(num: int, den: int, reverse: bool) -> int {
    let rising = if 2 * num <= den {
        2 * num
    } else {
        2 * den - 2 * num
    };
    if reverse {
        den - rising
    } else {
        rising
    }
}

/// Sine: the table's sample for the phase, over `LEVEL_SCALE`; turned upside
/// down when reversed.
pub open spec fn sine_level(table: Seq<u16>, num: int, den: int, reverse: bool) -> int {
    let sample = table[sine_slot(table.len() as int, num, den)] as int;
    if reverse {
        LEVEL_SCALE - sample
    } else {
        sample
    }
}

/// Height of `shape` at the phase `num / den`, as numerator and denominator.
pub open spec fn shape_level(shape: Shape, table: Seq<u16>, num: int, den: int, reverse: bool) -> (
    int,
    int,
) {
    match shape {
        Shape::Saw => (saw_level(num, den, reverse), den),
        Shape::Square => (square_level(num, den, reverse), den),
        Shape::Triangle => (triangle_level(num, den, reverse), den),
        Shape::Sine => (sine_level(table, num, den, reverse), LEVEL_SCALE as int),
    }
}

/// `value` cut to the range from `min` to `max`.
pub open spec fn clamp_value(value: int, min: int, max: int) -> int {
    if value >= max {
        max
    } else if value <= min {
        min
    } else {
        value
    }
}

pub open spec fn curve_low(s: MovementSettings) -> int {
    match s.curve_min {
        Some(v) => v as int,
        None => s.min as int,
    }
}

pub open spec fn curve_high(s: MovementSettings) -> int {
    match s.curve_max {
        Some(v) => v as int,
        None => s.max as int,
    }
}

/// The level `num / den` laid onto the curve, rounded down and cut to the
/// movement's bounds.
pub open spec fn curve_value(s: MovementSettings, num: int, den: int) -> int {
    clamp_value(
        curve_low(s) + ((curve_high(s) - curve_low(s)) * num) / den,
        s.min as int,
        s.max as int,
    )
}

/// The value of a movement `elapsed_ms` after its scene was activated.
pub open spec fn movement_value(s: MovementSettings, bpm: u8, elapsed_ms: int, table: Seq<u16>) -> int {
    let level = shape_level(
        s.shape,
        table,
        phase_ticks(s, bpm, elapsed_ms),
        phase_span(s, bpm),
        s.reverse,
    );
    curve_value(s, level.0, level.1)
}

impl MovementSettings {
    /// A sine over the whole range, with every optional field left open.
    pub fn new() -> (settings: MovementSettings)
        ensures
            settings == (MovementSettings {
                shape: Shape::Sine,
                min: 0,
                max: 255,
                curve_min: None,
                curve_max: None,
                duration_ms: None,
                duration_percentage: None,
                delay_ms: None,
                delay_percentage: None,
                repetition: 0,
                reverse: false,
            }),
    {
        MovementSettings {
            shape: Shape::Sine,
            min: 0,
            max: 255,
            curve_min: None,
            curve_max: None,
            duration_ms: None,
            duration_percentage: None,
            delay_ms: None,
            delay_percentage: None,
            repetition: 0,
            reverse: false,
        }
    }
}

/// A waveform that a fader follows: settings in normal form.
#[derive(Clone, Copy, Debug)]
pub struct Movement {
    settings: MovementSettings,
}

impl View for Movement {
    type V = MovementSettings;

    closed spec fn view(&self) -> MovementSettings {
        self.settings
    }
}

impl Movement {
    #[verifier::type_invariant]
    closed spec fn inv(self) -> bool {
        is_normal(self.settings)
    }

    /// The movement that `settings` describe.
    pub closed spec fn of(settings: MovementSettings) -> Movement {
        Movement { settings: normalized(settings) }
    }

    /// Builds the movement that `settings` describe.
    pub fn new(settings: MovementSettings) -> (movement: Movement)
        ensures
            movement == Movement::of(settings),
            movement@ == normalized(settings),
            is_normal(movement@),
    {
        let min: u8 = if settings.max < settings.min {
            settings.max
        } else {
            settings.min
        };
        let curve_min: i64 = match settings.curve_min {
            Some(v) => v,
            None => min as i64,
        };
        let curve_max: i64 = match settings.curve_max {
            Some(v) => v,
            None => settings.max as i64,
        };
        let duration_percentage: Option<u32> = if settings.duration_ms.is_none()
            && settings.duration_percentage.is_none() {
            Some(400u32)
        } else {
            settings.duration_percentage
        };
        let delay_percentage: Option<u32> = if settings.delay_ms.is_none()
            && settings.delay_percentage.is_none() {
            Some(0u32)
        } else {
            settings.delay_percentage
        };
        Movement {
            settings: MovementSettings {
                shape: settings.shape,
                min,
                max: settings.max,
                curve_min: Some(curve_min),
                curve_max: Some(curve_max),
                duration_ms: settings.duration_ms,
                duration_percentage,
                delay_ms: settings.delay_ms,
                delay_percentage,
                repetition: settings.repetition,
                reverse: settings.reverse,
            },
        }
    }

    /// The settings in normal form.
    pub fn settings(&self) -> (settings: MovementSettings)
        ensures
            settings == self@,
            is_normal(settings),
    {
        proof {
            use_type_invariant(self);
        }
        self.settings
    }

    /// Length of one period in ticks.
    pub fn period(&self, bpm: u8) -> (ticks: u64)
        ensures
            ticks == duration_ticks(self@, bpm),
            ticks < MAX_SPAN,
            ticks % 100 == 0,
    {
        match self.settings.duration_ms {
            Some(ms) => {
                proof {
                    lemma_mul_bound(ms as int, bpm as int, u32::MAX as int, 255);
                    assert(ms * (100 * bpm) == 100 * (ms * bpm)) by (nonlinear_arith);
                }
                let beats: u64 = (ms as u64) * (bpm as u64);
                100 * beats
            },
            None => match self.settings.duration_percentage {
                Some(percent) => 60000 * (percent as u64),
                None => 4 * BEAT_TICKS,
            },
        }
    }

    /// The phase of the movement `elapsed_ms` after its scene was activated.
    pub fn position(&self, bpm: u8, elapsed_ms: u64) -> (phase: Fraction)
        ensures
            phase.wf(),
            phase.num() == phase_ticks(self@, bpm, elapsed_ms as int),
            phase.den() == phase_span(self@, bpm),
            phase.num() < phase.den(),
    {
        let period: u64 = self.period(bpm);
        if period == 0 {
            return Fraction { num: 0, den: 1 };
        }
        let unit: u128 = 100 * (bpm as u128);
        proof {
            lemma_mul_bound(elapsed_ms as int, unit as int, u64::MAX as int, 25500);
        }
        let run: u128 = (elapsed_ms as u128) * unit;
        let delay: u128 = match self.settings.delay_ms {
            Some(ms) => {
                proof {
                    lemma_mul_bound(ms as int, unit as int, u32::MAX as int, 25500);
                }
                (ms as u128) * unit
            },
            None => match self.settings.delay_percentage {
                Some(percent) => {
                    proof {
                        lemma_mul_bound(
                            (period / 100) as int,
                            percent as int,
                            (MAX_SPAN / 100) as int,
                            u32::MAX as int,
                        );
                    }
                    ((period / 100) as u128) * (percent as u128)
                },
                None => 0,
            },
        };
        let ticks: u128 = (run + delay) % (period as u128);
        Fraction { num: ticks as u64, den: period }
    }

    /// The value that the movement puts out at the height `level`.
    pub fn value_at_level(&self, level: &Fraction) -> (value: u8)
        ensures
            value == curve_value(self@, level.num(), level.den()),
            self@.min <= value <= self@.max,
    {
        proof {
            use_type_invariant(self);
            use_type_invariant(level);
        }
        let low: i128 = match self.settings.curve_min {
            Some(v) => v as i128,
            None => self.settings.min as i128,
        };
        let high: i128 = match self.settings.curve_max {
            Some(v) => v as i128,
            None => self.settings.max as i128,
        };
        let num: i128 = level.num as i128;
        let den: i128 = level.den as i128;
        let rise: i128 = high - low;
        proof {
            lemma_mul_signed_bound(low as int, den as int, 0x8000_0000_0000_0000, MAX_SPAN as int);
            lemma_mul_signed_bound(rise as int, num as int, 0x1_0000_0000_0000_0000, MAX_SPAN as int);
            lemma_mul_bound(self.settings.max as int, den as int, 255, MAX_SPAN as int);
            lemma_mul_bound(self.settings.min as int, den as int, 255, MAX_SPAN as int);
            lemma_scaled_value(low as int, rise as int, num as int, den as int);
        }
        let scaled: i128 = low * den + rise * num;
        let ceiling: i128 = (self.settings.max as i128) * den;
        let floor: i128 = (self.settings.min as i128) * den;
        proof {
            let exact = low + (rise * num) / den as int;
            lemma_scaled_order(scaled as int, den as int, exact, self.settings.max as int);
            lemma_scaled_order(scaled as int, den as int, exact, self.settings.min as int);
        }
        if scaled >= ceiling {
            self.settings.max
        } else if scaled <= floor {
            self.settings.min
        } else {
            (scaled / den) as u8
        }
    }
}

/// A product of a bounded integer and a bounded natural is bounded.
pub proof fn lemma_mul_signed_bound(a: int, b: int, a_max: int, b_max: int)
    requires
        -a_max <= a <= a_max,
        0 <= b <= b_max,
    ensures
        -(a_max * b_max) <= a * b <= a_max * b_max,
{
    assert(-(a_max * b_max) <= a * b <= a_max * b_max) by (nonlinear_arith)
        requires
            -a_max <= a <= a_max,
            0 <= b <= b_max,
    ;
}

/// Laying a level onto a curve commutes with scaling by the denominator:
/// `low * den + rise * num` divided by `den` is `low + (rise * num) / den`.
pub proof fn lemma_scaled_value(low: int, rise: int, num: int, den: int)
    requires
        den > 0,
    ensures
        (low * den + rise * num) / den == low + (rise * num) / den,
        (low * den + rise * num) % den == (rise * num) % den,
{
    vstd::arithmetic::div_mod::lemma_fundamental_div_mod(rise * num, den);
    let q = (rise * num) / den;
    let r = (rise * num) % den;
    assert(low * den + rise * num == (low + q) * den + r) by (nonlinear_arith)
        requires
            rise * num == den * q + r,
    ;
    vstd::arithmetic::div_mod::lemma_fundamental_div_mod_converse(
        low * den + rise * num,
        den,
        low + q,
        r,
    );
}

/// A scaled number compares with a scaled bound as its quotient does with
/// the bound.
pub proof fn lemma_scaled_order(scaled: int, den: int, quotient: int, bound: int)
    requires
        den > 0,
        quotient == scaled / den,
    ensures
        scaled >= bound * den <==> quotient >= bound,
        scaled <= bound * den ==> quotient <= bound,
        scaled >= 0 ==> quotient >= 0,
{
    vstd::arithmetic::div_mod::lemma_fundamental_div_mod(scaled, den);
    let r = scaled % den;
    assert(scaled >= bound * den <==> quotient >= bound) by (nonlinear_arith)
        requires
            scaled == den * quotient + r,
            0 <= r < den,
    ;
    assert(scaled <= bound * den ==> quotient <= bound) by (nonlinear_arith)
        requires
            scaled == den * quotient + r,
            0 <= r < den,
    ;
    assert(scaled >= 0 ==> quotient >= 0) by (nonlinear_arith)
        requires
            scaled == den * quotient + r,
            0 <= r < den,
    ;
}

/// Height of the saw at `position`.
pub fn saw_function(position: &Fraction, reverse: bool) -> (level: Fraction)
    ensures
        level.wf(),
        level.num() == saw_level(position.num(), position.den(), reverse),
        level.den() == position.den(),
{
    proof {
        use_type_invariant(position);
    }
    if reverse {
        Fraction { num: position.den - position.num, den: position.den }
    } else {
        Fraction { num: position.num, den: position.den }
    }
}

/// Height of the square at `position`: never anything between 0 and 1.
pub fn square_function(position: &Fraction, reverse: bool) -> (level: Fraction)
    ensures
        level.wf(),
        level.num() == square_level(position.num(), position.den(), reverse),
        level.den() == position.den(),
        level.num() == 0 || level.num() == level.den(),
{
    proof {
        use_type_invariant(position);
    }
    let upper_half: bool = 2 * position.num >= position.den;
    if upper_half != reverse {
        Fraction { num: position.den, den: position.den }
    } else {
        Fraction { num: 0, den: position.den }
    }
}

/// Height of the triangle at `position`.
pub fn triangle_function(position: &Fraction, reverse: bool) -> (level: Fraction)
    ensures
        level.wf(),
        level.num() == triangle_level(position.num(), position.den(), reverse),
        level.den() == position.den(),
{
    proof {
        use_type_invariant(position);
    }
    let rising: u64 = if 2 * position.num <= position.den {
        2 * position.num
    } else {
        2 * position.den - 2 * position.num
    };
    if reverse {
        Fraction { num: position.den - rising, den: position.den }
    } else {
        Fraction { num: rising, den: position.den }
    }
}

/// Height of the sine at `position`, read from the table.
pub fn cos_function(position: &Fraction, reverse: bool, table: &SineTable) -> (level: Fraction)
    ensures
        level.wf(),
        level.num() == sine_level(table@, position.num(), position.den(), reverse),
        level.den() == LEVEL_SCALE,
{
    let sample: u16 = table.level_at(position);
    if reverse {
        Fraction { num: LEVEL_SCALE - (sample as u64), den: LEVEL_SCALE }
    } else {
        Fraction { num: sample as u64, den: LEVEL_SCALE }
    }
}

/// The value of `movement` at the tempo `beats_per_minute`, `elapsed_ms`
/// after its scene was activated. It never leaves the movement's bounds.
pub fn calculate_movement(
    movement: &Movement,
    beats_per_minute: u8,
    elapsed_ms: u64,
    table: &SineTable,
) -> (value: u8)
    ensures
        value == movement_value(movement@, beats_per_minute, elapsed_ms as int, table@),
        movement@.min <= value <= movement@.max,
{
    let position: Fraction = movement.position(beats_per_minute, elapsed_ms);
    let settings: MovementSettings = movement.settings();
    let level: Fraction = match settings.shape {
        Shape::Sine => cos_function(&position, settings.reverse, table),
        Shape::Square => square_function(&position, settings.reverse),
        Shape::Saw => saw_function(&position, settings.reverse),
        Shape::Triangle => triangle_function(&position, settings.reverse),
    };
    movement.value_at_level(&level)
}

/// Whatever the shape, the tempo and the time, a movement whose `min` does
/// not lie above its `max` puts out a value between the two.
pub proof fn lemma_value_within_bounds(
    s: MovementSettings,
    bpm: u8,
    elapsed_ms: nat,
    table: Seq<u16>,
)
    requires
        s.min <= s.max,
    ensures
        s.min <= movement_value(s, bpm, elapsed_ms as int, table) <= s.max,
{
}

/// A square takes two values only: the low and the high end of the curve,
/// each cut to the movement's bounds.
pub proof fn lemma_square_is_binary(s: MovementSettings, bpm: u8, elapsed_ms: nat, table: Seq<u16>)
    requires
        s.shape == Shape::Square,
    ensures
        movement_value(s, bpm, elapsed_ms as int, table) == clamp_value(
            curve_low(s),
            s.min as int,
            s.max as int,
        ) || movement_value(s, bpm, elapsed_ms as int, table) == clamp_value(
            curve_high(s),
            s.min as int,
            s.max as int,
        ),
{
    let den = phase_span(s, bpm);
    let rise = curve_high(s) - curve_low(s);
    assert(den > 0) by {
        lemma_period_positive(s, bpm);
    }
    lemma_whole_levels(rise, den);
}

/// A saw starts at the low end of the curve, and at the high end when it is
/// reversed, each cut to the movement's bounds.
pub proof fn lemma_saw_start(s: MovementSettings, den: int)
    requires
        den > 0,
    ensures
        curve_value(s, saw_level(0, den, false), den) == clamp_value(
            curve_low(s),
            s.min as int,
            s.max as int,
        ),
        curve_value(s, saw_level(0, den, true), den) == clamp_value(
            curve_high(s),
            s.min as int,
            s.max as int,
        ),
{
    lemma_whole_levels(curve_high(s) - curve_low(s), den);
}

/// At the start of each period a saw movement puts out the low end of its
/// curve, and the high end when it is reversed, each cut to the bounds.
pub proof fn lemma_saw_movement_start(s: MovementSettings, bpm: u8, elapsed_ms: nat, table: Seq<u16>)
    requires
        s.shape == Shape::Saw,
        phase_ticks(s, bpm, elapsed_ms as int) == 0,
    ensures
        movement_value(s, bpm, elapsed_ms as int, table) == clamp_value(
            if s.reverse {
                curve_high(s)
            } else {
                curve_low(s)
            },
            s.min as int,
            s.max as int,
        ),
{
    lemma_period_positive(s, bpm);
    lemma_saw_start(s, phase_span(s, bpm));
}

/// The period is never negative, so the phase has a positive denominator.
pub proof fn lemma_period_positive(s: MovementSettings, bpm: u8)
    ensures
        duration_ticks(s, bpm) >= 0,
        phase_span(s, bpm) > 0,
{
    match s.duration_ms {
        Some(ms) => {
            lemma_mul_bound(ms as int, tick_unit(bpm), u32::MAX as int, 25500);
        },
        None => {},
    }
}

/// At level 0 nothing of the rise is added, at level 1 all of it.
pub proof fn lemma_whole_levels(rise: int, den: int)
    requires
        den > 0,
    ensures
        (rise * 0) / den == 0,
        (rise * den) / den == rise,
{
    assert(rise * 0 == 0);
    vstd::arithmetic::div_mod::lemma_div_multiples_vanish(rise, den);
    assert(rise * den == den * rise) by (nonlinear_arith);
}

} // verus!
