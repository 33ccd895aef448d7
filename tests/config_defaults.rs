use notch_capsule::config::{ConfigValue, NotchConfig, WindowConfig};

#[test]
fn failed_load_falls_back_to_defaults() {
    let cfg = NotchConfig::resolve(vec![None, None, None]);
    assert_eq!(cfg.animation.expand_duration.value as f64 / 1000.0, 0.50);
    assert_eq!(cfg.dimensions.collapsed_width.value as f64 / 1000.0, 460.0);
}

#[test]
fn defaults_hold_the_documented_values() {
    let cfg = NotchConfig::default();
    assert_eq!(cfg.animation.collapse_duration.value, 350);
    assert_eq!(cfg.animation.expand_timing.value, vec![160, 1000, 300, 1000]);
    assert_eq!(cfg.animation.collapse_timing.value, vec![250, 100, 250, 1000]);
    assert_eq!(cfg.dimensions.corner_radius.value, 12_000);
    assert_eq!(cfg.dimensions.collapsed_height.value, 50_000);
    assert_eq!(cfg.dimensions.expanded_width.value, 700_000);
    assert_eq!(cfg.dimensions.expanded_height.value, 200_000);
    assert_eq!(cfg.hover.collapsed_zone_width.value, 460_000);
    assert_eq!(cfg.hover.expanded_zone_height.value, 200_000);
    assert_eq!(cfg.hover.expand_delay_ms.value, 250);
    assert_eq!(cfg.hover.collapse_delay_ms.value, 150);
    assert_eq!(cfg.hover.poll_interval_ms.value, 50);
    assert_eq!(cfg.window.level_offset.value, 3);
    assert_eq!(cfg.dimensions.collapsed_width.description, "Width when collapsed");
    assert_eq!(cfg.window.level_offset.description, "Window level offset above main menu");
}

#[test]
fn first_loaded_candidate_wins() {
    let mut a = NotchConfig::default();
    a.window = WindowConfig { level_offset: ConfigValue { value: 7, description: "a".to_string() } };
    let mut b = NotchConfig::default();
    b.window.level_offset.value = 9;
    let cfg = NotchConfig::resolve(vec![None, Some(a), Some(b)]);
    assert_eq!(cfg.window.level_offset.value, 7);
    assert_eq!(cfg.window.level_offset.description, "a");
    let empty = NotchConfig::resolve(Vec::new());
    assert_eq!(empty.window.level_offset.value, 3);
}
