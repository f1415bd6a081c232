use rustylight::waveform::{
    calculate_movement, cos_function, saw_function, square_function, triangle_function, Fraction,
    Movement, MovementSettings, Shape, SineTable,
};

fn sine_table(samples: usize) -> SineTable {
    let mut values: Vec<u16> = Vec::new();
    for i in 0..samples {
        let angle = 2.0 * std::f64::consts::PI * (i as f64) / (samples as f64);
        values.push((65535.0 * (1.0 - angle.cos()) / 2.0).round() as u16);
    }
    SineTable::new(values).unwrap()
}

fn settings(shape: Shape) -> MovementSettings {
    let mut s = MovementSettings::new();
    s.shape = shape;
    s
}

#[test]
fn defaults_are_a_full_range_sine_over_four_beats() {
    let m = Movement::new(MovementSettings::new()).settings();
    assert_eq!(m.shape, Shape::Sine);
    assert_eq!((m.min, m.max), (0, 255));
    assert_eq!((m.curve_min, m.curve_max), (Some(0), Some(255)));
    assert_eq!((m.duration_ms, m.duration_percentage), (None, Some(400)));
    assert_eq!((m.delay_ms, m.delay_percentage), (None, Some(0)));
    assert!(!m.reverse);
    assert_eq!(m.repetition, 0);
}

#[test]
fn min_above_max_is_forced_down_to_max() {
    let mut s = settings(Shape::Saw);
    s.min = 200;
    s.max = 100;
    let m = Movement::new(s);
    assert_eq!(m.settings().min, 100);
    assert_eq!(m.settings().max, 100);
    assert_eq!(m.settings().curve_min, Some(100));
    let table = sine_table(16);
    for elapsed in [0u64, 1, 499, 500, 1999, 2000, 123456] {
        assert_eq!(calculate_movement(&m, 120, elapsed, &table), 100);
    }
}

#[test]
fn explicit_curve_ends_are_kept() {
    let mut s = settings(Shape::Saw);
    s.min = 10;
    s.max = 200;
    s.curve_min = Some(-100);
    s.curve_max = Some(400);
    let m = Movement::new(s).settings();
    assert_eq!((m.curve_min, m.curve_max), (Some(-100), Some(400)));
}

#[test]
fn period_is_four_beats_by_default() {
    let m = Movement::new(settings(Shape::Saw));
    assert_eq!(m.period(120), 24_000_000);
    assert_eq!(m.period(60), 24_000_000);
    let p = m.position(120, 500);
    assert_eq!((p.numerator(), p.denominator()), (6_000_000, 24_000_000));
    let p = m.position(60, 500);
    assert_eq!((p.numerator(), p.denominator()), (3_000_000, 24_000_000));
}

#[test]
fn saw_rises_with_the_phase() {
    let m = Movement::new(settings(Shape::Saw));
    let table = sine_table(16);
    assert_eq!(calculate_movement(&m, 120, 0, &table), 0);
    assert_eq!(calculate_movement(&m, 120, 500, &table), 63);
    assert_eq!(calculate_movement(&m, 120, 1000, &table), 127);
    assert_eq!(calculate_movement(&m, 120, 1500, &table), 191);
    assert_eq!(calculate_movement(&m, 120, 1999, &table), 254);
    assert_eq!(calculate_movement(&m, 120, 2000, &table), 0);
    assert_eq!(calculate_movement(&m, 120, 2500, &table), 63);
}

#[test]
fn saw_starts_at_curve_min_and_reversed_at_curve_max() {
    let mut s = settings(Shape::Saw);
    s.min = 20;
    s.max = 220;
    let table = sine_table(16);
    assert_eq!(calculate_movement(&Movement::new(s), 120, 0, &table), 20);
    s.reverse = true;
    assert_eq!(calculate_movement(&Movement::new(s), 120, 0, &table), 220);
    assert_eq!(calculate_movement(&Movement::new(s), 120, 500, &table), 170);
}

#[test]
fn square_takes_two_values_only() {
    let mut s = settings(Shape::Square);
    s.min = 30;
    s.max = 180;
    let m = Movement::new(s);
    let table = sine_table(16);
    let mut low = 0;
    let mut high = 0;
    for elapsed in 0..4000u64 {
        let v = calculate_movement(&m, 120, elapsed, &table);
        assert!(v == 30 || v == 180);
        if v == 30 {
            low += 1;
        } else {
            high += 1;
        }
    }
    assert_eq!((low, high), (2000, 2000));
    assert_eq!(calculate_movement(&m, 120, 999, &table), 30);
    assert_eq!(calculate_movement(&m, 120, 1000, &table), 180);
    s.reverse = true;
    let r = Movement::new(s);
    assert_eq!(calculate_movement(&r, 120, 999, &table), 180);
    assert_eq!(calculate_movement(&r, 120, 1000, &table), 30);
}

#[test]
fn triangle_goes_up_and_down() {
    let m = Movement::new(settings(Shape::Triangle));
    let table = sine_table(16);
    assert_eq!(calculate_movement(&m, 120, 0, &table), 0);
    assert_eq!(calculate_movement(&m, 120, 500, &table), 127);
    assert_eq!(calculate_movement(&m, 120, 1000, &table), 255);
    assert_eq!(calculate_movement(&m, 120, 1500, &table), 127);
    let mut s = settings(Shape::Triangle);
    s.reverse = true;
    let r = Movement::new(s);
    assert_eq!(calculate_movement(&r, 120, 0, &table), 255);
    assert_eq!(calculate_movement(&r, 120, 1000, &table), 0);
    assert_eq!(calculate_movement(&r, 120, 1500, &table), 127);
}

#[test]
fn sine_follows_the_table() {
    let m = Movement::new(settings(Shape::Sine));
    let table = sine_table(1000);
    assert_eq!(table.len(), 1000);
    assert_eq!(calculate_movement(&m, 120, 0, &table), 0);
    assert_eq!(calculate_movement(&m, 120, 500, &table), 127);
    assert_eq!(calculate_movement(&m, 120, 1000, &table), 255);
    assert_eq!(calculate_movement(&m, 120, 1500, &table), 127);
    let mut s = settings(Shape::Sine);
    s.reverse = true;
    let r = Movement::new(s);
    assert_eq!(calculate_movement(&r, 120, 0, &table), 255);
    assert_eq!(calculate_movement(&r, 120, 1000, &table), 0);
}

#[test]
fn sine_level_reads_the_slot_of_the_phase() {
    let table = SineTable::new(vec![0, 100, 200, 300]).unwrap();
    let at = |n: u64, d: u64| Fraction::new(n, d).unwrap();
    assert_eq!(table.level_at(&at(0, 8)), 0);
    assert_eq!(table.level_at(&at(1, 8)), 0);
    assert_eq!(table.level_at(&at(2, 8)), 100);
    assert_eq!(table.level_at(&at(7, 8)), 300);
    assert_eq!(table.level_at(&at(8, 8)), 0);
    let level = cos_function(&at(5, 8), false, &table);
    assert_eq!((level.numerator(), level.denominator()), (200, 65535));
    let level = cos_function(&at(5, 8), true, &table);
    assert_eq!((level.numerator(), level.denominator()), (65335, 65535));
}

#[test]
fn shape_functions_give_exact_levels() {
    let at = |n: u64, d: u64| Fraction::new(n, d).unwrap();
    let pair = |f: Fraction| (f.numerator(), f.denominator());
    assert_eq!(pair(saw_function(&at(3, 10), false)), (3, 10));
    assert_eq!(pair(saw_function(&at(3, 10), true)), (7, 10));
    assert_eq!(pair(square_function(&at(4, 10), false)), (0, 10));
    assert_eq!(pair(square_function(&at(5, 10), false)), (10, 10));
    assert_eq!(pair(square_function(&at(4, 10), true)), (10, 10));
    assert_eq!(pair(square_function(&at(5, 10), true)), (0, 10));
    assert_eq!(pair(triangle_function(&at(3, 10), false)), (6, 10));
    assert_eq!(pair(triangle_function(&at(5, 10), false)), (10, 10));
    assert_eq!(pair(triangle_function(&at(7, 10), false)), (6, 10));
    assert_eq!(pair(triangle_function(&at(7, 10), true)), (4, 10));
    assert_eq!(pair(triangle_function(&at(10, 10), false)), (0, 10));
}

#[test]
fn fraction_rejects_what_is_no_phase() {
    assert!(Fraction::new(0, 0).is_none());
    assert!(Fraction::new(2, 1).is_none());
    assert!(Fraction::new(1, (1u64 << 48) + 1).is_none());
    assert!(Fraction::new(1, 1u64 << 48).is_some());
    assert!(Fraction::new(1, 1).is_some());
    assert!(SineTable::new(Vec::new()).is_none());
}

#[test]
fn explicit_milliseconds_go_before_percentages() {
    let mut s = settings(Shape::Saw);
    s.duration_ms = Some(1000);
    s.duration_percentage = Some(300);
    let m = Movement::new(s);
    let table = sine_table(16);
    assert_eq!(m.period(120), 12_000_000);
    assert_eq!(calculate_movement(&m, 120, 250, &table), 63);
    assert_eq!(calculate_movement(&m, 30, 250, &table), 63);
    s.delay_ms = Some(250);
    s.delay_percentage = Some(50);
    let d = Movement::new(s);
    assert_eq!(calculate_movement(&d, 120, 0, &table), 63);
    assert_eq!(calculate_movement(&d, 120, 250, &table), 127);
}

#[test]
fn percentages_scale_with_the_tempo() {
    let mut s = settings(Shape::Saw);
    s.duration_percentage = Some(100);
    let m = Movement::new(s);
    let table = sine_table(16);
    assert_eq!(calculate_movement(&m, 120, 125, &table), 63);
    assert_eq!(calculate_movement(&m, 60, 250, &table), 63);
    assert_eq!(calculate_movement(&m, 60, 1000, &table), 0);
    s.delay_percentage = Some(50);
    let d = Movement::new(s);
    assert_eq!(calculate_movement(&d, 120, 0, &table), 127);
    assert_eq!(calculate_movement(&d, 120, 125, &table), 191);
    assert_eq!(calculate_movement(&d, 120, 250, &table), 0);
}

#[test]
fn curve_beyond_the_bounds_is_cut() {
    let mut s = settings(Shape::Saw);
    s.min = 10;
    s.max = 200;
    s.curve_min = Some(-100);
    s.curve_max = Some(400);
    let m = Movement::new(s);
    let table = sine_table(16);
    assert_eq!(calculate_movement(&m, 120, 0, &table), 10);
    assert_eq!(calculate_movement(&m, 120, 500, &table), 25);
    assert_eq!(calculate_movement(&m, 120, 1000, &table), 150);
    assert_eq!(calculate_movement(&m, 120, 1500, &table), 200);
}

#[test]
fn values_are_rounded_down() {
    let mut s = settings(Shape::Saw);
    s.curve_min = Some(-1);
    s.curve_max = Some(3);
    let m = Movement::new(s);
    let table = sine_table(16);
    assert_eq!(calculate_movement(&m, 120, 0, &table), 0);
    assert_eq!(calculate_movement(&m, 120, 750, &table), 0);
    assert_eq!(calculate_movement(&m, 120, 1000, &table), 1);
    assert_eq!(calculate_movement(&m, 120, 1499, &table), 1);
    assert_eq!(calculate_movement(&m, 120, 1500, &table), 2);
}

#[test]
fn output_stays_within_bounds() {
    let table = sine_table(64);
    for shape in [Shape::Saw, Shape::Sine, Shape::Square, Shape::Triangle] {
        for reverse in [false, true] {
            let mut s = settings(shape);
            s.min = 40;
            s.max = 90;
            s.curve_min = Some(-5000);
            s.curve_max = Some(7000);
            s.reverse = reverse;
            s.duration_ms = Some(777);
            s.delay_percentage = Some(33);
            let m = Movement::new(s);
            for tempo in [1u8, 7, 120, 255] {
                for elapsed in (0..5000u64).step_by(13) {
                    let v = calculate_movement(&m, tempo, elapsed, &table);
                    assert!((40..=90).contains(&v));
                }
            }
            let v = calculate_movement(&m, 255, u64::MAX, &table);
            assert!((40..=90).contains(&v));
        }
    }
}

#[test]
fn empty_period_and_stopped_clock_stay_at_the_start() {
    let table = sine_table(16);
    let mut s = settings(Shape::Saw);
    s.min = 5;
    s.duration_ms = Some(0);
    let m = Movement::new(s);
    assert_eq!(m.period(120), 0);
    assert_eq!(calculate_movement(&m, 120, 1234, &table), 5);
    let still = Movement::new(settings(Shape::Saw));
    assert_eq!(calculate_movement(&still, 0, 1234, &table), 0);
    let mut big = settings(Shape::Saw);
    big.duration_ms = Some(u32::MAX);
    big.delay_ms = Some(u32::MAX);
    let b = Movement::new(big);
    assert_eq!(b.period(255), 4294967295u64 * 25500);
    assert_eq!(calculate_movement(&b, 255, 0, &table), 0);
}

#[test]
fn level_is_laid_onto_the_curve() {
    let mut s = settings(Shape::Saw);
    s.min = 0;
    s.max = 100;
    let m = Movement::new(s);
    assert_eq!(m.value_at_level(&Fraction::new(0, 3).unwrap()), 0);
    assert_eq!(m.value_at_level(&Fraction::new(1, 3).unwrap()), 33);
    assert_eq!(m.value_at_level(&Fraction::new(2, 3).unwrap()), 66);
    assert_eq!(m.value_at_level(&Fraction::new(3, 3).unwrap()), 100);
}
