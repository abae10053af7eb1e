use simplettsreader::settings::{clamp_rate, clamp_volume, Config, RATE_MAX, RATE_MIN, VOLUME_MAX};

fn config(voice_name: &str, rate: i32, volume: u32, hidden: bool) -> Config {
    Config { voice_name: voice_name.to_string(), rate, volume, hidden }
}

#[test]
fn default_settings_are_the_documented_ones() {
    let defaults = Config::default();
    assert_eq!(defaults.voice_name, "");
    assert_eq!(defaults.rate, 0);
    assert_eq!(defaults.volume, 100);
    assert!(!defaults.hidden);
}

#[test]
fn range_limits_are_the_platform_ones() {
    assert_eq!(RATE_MIN, -10);
    assert_eq!(RATE_MAX, 10);
    assert_eq!(VOLUME_MAX, 100);
}

#[test]
fn rate_is_clamped_into_its_range() {
    assert_eq!(clamp_rate(25), 10);
    assert_eq!(clamp_rate(11), 10);
    assert_eq!(clamp_rate(10), 10);
    assert_eq!(clamp_rate(3), 3);
    assert_eq!(clamp_rate(0), 0);
    assert_eq!(clamp_rate(-10), -10);
    assert_eq!(clamp_rate(-11), -10);
    assert_eq!(clamp_rate(i32::MIN), -10);
    assert_eq!(clamp_rate(i32::MAX), 10);
}

#[test]
fn volume_is_clamped_into_its_range() {
    assert_eq!(clamp_volume(150), 100);
    assert_eq!(clamp_volume(101), 100);
    assert_eq!(clamp_volume(100), 100);
    assert_eq!(clamp_volume(42), 42);
    assert_eq!(clamp_volume(0), 0);
    assert_eq!(clamp_volume(u32::MAX), 100);
}

#[test]
fn clamping_twice_equals_clamping_once() {
    for rate in [i32::MIN, -1000, -11, -10, -9, 0, 9, 10, 11, 25, i32::MAX] {
        assert_eq!(clamp_rate(clamp_rate(rate)), clamp_rate(rate));
    }
    for volume in [0, 1, 99, 100, 101, 150, u32::MAX] {
        assert_eq!(clamp_volume(clamp_volume(volume)), clamp_volume(volume));
    }
}

#[test]
fn sanitize_touches_only_rate_and_volume() {
    let clean = config("Bob [en-GB]", -40, 400, true).sanitize();
    assert_eq!(clean, config("Bob [en-GB]", -10, 100, true));
    let same = config("Bob [en-GB]", 4, 40, false).sanitize();
    assert_eq!(same, config("Bob [en-GB]", 4, 40, false));
}

#[test]
fn same_as_compares_every_field() {
    let base = config("Alice [en-US]", 1, 50, false);
    assert!(base.same_as(&config("Alice [en-US]", 1, 50, false)));
    assert!(!base.same_as(&config("Alice [en-GB]", 1, 50, false)));
    assert!(!base.same_as(&config("Alice [en-US]", 2, 50, false)));
    assert!(!base.same_as(&config("Alice [en-US]", 1, 51, false)));
    assert!(!base.same_as(&config("Alice [en-US]", 1, 50, true)));
    assert_eq!(base.clone(), base);
}

#[test]
fn unreadable_record_loads_as_defaults() {
    assert_eq!(Config::load(None, false), Config::default());
    assert_eq!(Config::load(None, true), Config::default());
}

#[test]
fn load_without_sanitizing_keeps_the_record() {
    let loaded = Config::load(Some(config("Eve [fr-FR]", 25, 150, true)), false);
    assert_eq!(loaded, config("Eve [fr-FR]", 25, 150, true));
}

#[test]
fn load_with_sanitizing_clamps_the_record() {
    let loaded = Config::load(Some(config("Eve [fr-FR]", 25, 150, true)), true);
    assert_eq!(loaded, config("Eve [fr-FR]", 10, 100, true));
}

#[test]
fn out_of_range_record_is_repaired_on_first_run() {
    let stored = config("", 25, 150, false);
    let sanitized = Config::load(Some(stored.clone()), true);
    assert_eq!(sanitized.rate, 10);
    assert_eq!(sanitized.volume, 100);

    let (start, persist) = Config::startup(Some(stored), None);
    assert_eq!(start, config("", 10, 100, false));
    assert!(persist);

    // The host writes the record back; the next plain read sees the repair.
    let disk = Some(start);
    let reread = Config::load(disk.clone(), false);
    assert_eq!(reread.rate, 10);
    assert_eq!(reread.volume, 100);
    let (again, persist_again) = Config::startup(disk, None);
    assert_eq!(again, config("", 10, 100, false));
    assert!(!persist_again);
}

#[test]
fn startup_with_a_sound_record_stores_nothing() {
    let (start, persist) = Config::startup(Some(config("Bob [en-GB]", -3, 80, true)), None);
    assert_eq!(start, config("Bob [en-GB]", -3, 80, true));
    assert!(!persist);
}

#[test]
fn startup_without_a_record_uses_defaults_and_stores_nothing() {
    let (start, persist) = Config::startup(None, None);
    assert_eq!(start, Config::default());
    assert!(!persist);
}

#[test]
fn startup_override_of_hidden_is_stored_when_it_differs() {
    let (start, persist) = Config::startup(Some(config("", 0, 100, false)), Some(true));
    assert!(start.hidden);
    assert!(persist);
    let (same, persist_same) = Config::startup(Some(config("", 0, 100, true)), Some(true));
    assert!(same.hidden);
    assert!(!persist_same);
    let (shown, persist_shown) = Config::startup(None, Some(true));
    assert_eq!(shown, config("", 0, 100, true));
    assert!(persist_shown);
}
