use pill_bench::settings::{
    setting_or, Settings, DEFAULT_MATERIAL_COUNT, DEFAULT_PILL_COUNT, DEFAULT_SPAWN_BATCH,
};

fn some(text: &str) -> Option<String> {
    Some(text.to_string())
}

#[test]
fn absent_settings_give_defaults() {
    let settings = Settings::from_raw(&None, &None, &None);
    assert_eq!(settings.pill_count(), DEFAULT_PILL_COUNT);
    assert_eq!(settings.pill_count(), 60000);
    assert_eq!(settings.spawn_batch(), DEFAULT_SPAWN_BATCH);
    assert_eq!(settings.spawn_batch(), 2000);
    assert_eq!(settings.material_count(), DEFAULT_MATERIAL_COUNT);
    assert_eq!(settings.material_count(), 10);
}

#[test]
fn pill_count_zero_means_no_pills() {
    let settings = Settings::from_raw(&some("0"), &None, &None);
    assert_eq!(settings.pill_count(), 0);
}

#[test]
fn pill_count_one_means_single_pill() {
    let settings = Settings::from_raw(&some("1"), &None, &None);
    assert_eq!(settings.pill_count(), 1);
}

#[test]
fn full_benchmark_settings() {
    let settings = Settings::from_raw(&some("60000"), &some("2000"), &None);
    assert_eq!(settings.pill_count(), 60000);
    assert_eq!(settings.spawn_batch(), 2000);
}

#[test]
fn material_count_is_at_least_one() {
    let settings = Settings::from_raw(&None, &None, &some("0"));
    assert_eq!(settings.material_count(), 1);
    let settings = Settings::from_raw(&None, &None, &some("3"));
    assert_eq!(settings.material_count(), 3);
}

#[test]
fn unparsable_settings_fall_back() {
    assert_eq!(setting_or(&some("abc"), 7), 7);
    assert_eq!(setting_or(&some(""), 7), 7);
    assert_eq!(setting_or(&some("+"), 7), 7);
    assert_eq!(setting_or(&some("-5"), 7), 7);
    assert_eq!(setting_or(&some(" 5"), 7), 7);
    assert_eq!(setting_or(&some("5 "), 7), 7);
    assert_eq!(setting_or(&some("1_000"), 7), 7);
    assert_eq!(setting_or(&some("99999999999999999999999999"), 7), 7);
}

#[test]
fn parsable_settings_are_read() {
    assert_eq!(setting_or(&some("+5"), 7), 5);
    assert_eq!(setting_or(&some("007"), 1), 7);
    assert_eq!(setting_or(&some("123456"), 1), 123456);
    assert_eq!(setting_or(&None, 42), 42);
}
