use jemclicks::config::derive_settings;
use jemclicks::ramp::VelocityRamp;

#[test]
fn settings_from_default_rates() {
    let s = derive_settings(90, 200, 500);
    assert_eq!(s.tick_ms, 11);
    assert_eq!(s.steps, 19);
    assert_eq!(s.max_fp, 5555);
    assert_eq!(s.inc_fp, 293);
}

#[test]
fn settings_example_rates() {
    // 30 ticks per second, 200 ms ramp, 480 units per second = 16 per tick
    let s = derive_settings(30, 200, 480);
    assert_eq!(s.tick_ms, 33);
    assert_eq!(s.steps, 7);
    assert_eq!(s.max_fp, 16000);
    assert_eq!(s.inc_fp, 2286);
}

#[test]
fn settings_zero_ramp_is_one_step() {
    let s = derive_settings(100, 0, 1000);
    assert_eq!(s.steps, 1);
    assert_eq!(s.max_fp, 10000);
    assert_eq!(s.inc_fp, 10000);
}

#[test]
fn settings_zero_speed() {
    let s = derive_settings(100, 200, 0);
    assert_eq!(s.max_fp, 0);
    assert_eq!(s.inc_fp, 0);
}

#[test]
fn ramp_reaches_max_within_steps() {
    let s = derive_settings(30, 200, 480);
    let mut r = VelocityRamp::new(s.max_fp, s.inc_fp);
    let mut prev: u32 = 0;
    for _ in 0..s.steps {
        let v = r.tick(true);
        // monotonic non-decreasing, clamped
        assert!(v >= prev);
        assert!(v <= s.max_fp);
        prev = v;
    }
    // after exactly `steps` held ticks from rest, the ramp is at the peak,
    // certainly within one increment of it
    assert_eq!(prev, s.max_fp);
}

#[test]
fn ramp_decays_to_zero_within_steps() {
    let s = derive_settings(30, 200, 480);
    let mut r = VelocityRamp::new(s.max_fp, s.inc_fp);
    for _ in 0..s.steps {
        r.tick(true);
    }
    assert_eq!(r.current_speed(), s.max_fp);
    let mut prev = s.max_fp;
    for _ in 0..s.steps {
        let v = r.tick(false);
        // monotone non-increasing, never negative (unsigned and clamped)
        assert!(v <= prev);
        prev = v;
    }
    assert_eq!(prev, 0);
    // and it stays at zero
    assert_eq!(r.tick(false), 0);
}

#[test]
fn ramp_is_deterministic() {
    let s = derive_settings(90, 200, 500);
    let helds = [true, true, false, true, false, false, true, true, true, false];
    let mut first: Vec<u32> = Vec::new();
    let mut r1 = VelocityRamp::new(s.max_fp, s.inc_fp);
    for h in helds {
        first.push(r1.tick(h));
    }
    let mut second: Vec<u32> = Vec::new();
    let mut r2 = VelocityRamp::new(s.max_fp, s.inc_fp);
    for h in helds {
        second.push(r2.tick(h));
    }
    assert_eq!(first, second);
}

#[test]
fn ramp_exact_climb_sequence() {
    let s = derive_settings(30, 200, 480);
    let mut r = VelocityRamp::new(s.max_fp, s.inc_fp);
    let expected = [2286u32, 4572, 6858, 9144, 11430, 13716, 16000, 16000];
    for e in expected {
        assert_eq!(r.tick(true), e);
    }
}
