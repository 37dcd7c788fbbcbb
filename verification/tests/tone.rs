use i2s_sync::tone::sample_at;
use i2s_sync::tone::ToneSampleSource;
use i2s_sync::tone::RAMP_BASE;
use i2s_sync::tone::SAMPLE_STEP;
use i2s_sync::tone::TONE_PERIOD;

#[test]
fn tone_first_sample_is_half_min() {
    assert_eq!(sample_at(0), i32::MIN / 2);
    assert_eq!(RAMP_BASE, i32::MIN / 2);
    assert_eq!(SAMPLE_STEP, (u32::MAX / 480 / 2) as i32);
}

#[test]
fn tone_matches_formula_over_whole_period() {
    let step = (u32::MAX / TONE_PERIOD as u32 / 2) as i32;
    for i in 0..TONE_PERIOD {
        let expected = i32::MIN / 2 + (i as i32) * step;
        assert_eq!(sample_at(i), expected, "sample {} off", i);
    }
}

#[test]
fn tone_last_sample_stays_below_max() {
    let last = sample_at(TONE_PERIOD - 1);
    assert!(last > 0);
    assert!(last < i32::MAX);
}

#[test]
fn tone_source_walks_the_ramp() {
    let mut src = ToneSampleSource::new();
    for i in 0..TONE_PERIOD {
        assert_eq!(src.next(), sample_at(i));
    }
}

#[test]
fn tone_source_restarts_to_first_value_after_one_period() {
    let mut src = ToneSampleSource::new();
    let first = src.next();
    for _ in 1..TONE_PERIOD {
        src.next();
    }
    assert_eq!(src.cursor, 0);
    assert_eq!(src.next(), first);
}

#[test]
fn tone_source_is_exactly_periodic() {
    let mut src = ToneSampleSource::new();
    let mut one_period = Vec::new();
    for _ in 0..TONE_PERIOD {
        one_period.push(src.next());
    }
    for i in 0..TONE_PERIOD {
        assert_eq!(src.next(), one_period[i]);
    }
}

#[test]
fn tone_source_restart_rewinds() {
    let mut src = ToneSampleSource::new();
    src.next();
    src.next();
    assert_eq!(src.cursor, 2);
    src.restart();
    assert_eq!(src.cursor, 0);
    assert_eq!(src.next(), sample_at(0));
}
