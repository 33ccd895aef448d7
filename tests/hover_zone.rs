use notch_capsule::config::NotchConfig;
use notch_capsule::geometry::{half_down, Point, Rect, COORD_LIMIT};
use notch_capsule::hover::{
    display_at, displays_in_range, pointer_in_zone, resolve_hover_zone, zone_sizes_in_range,
};

fn screen(x: i64, y: i64, w: i64, h: i64) -> Rect {
    Rect { x, y, width: w, height: h }
}

fn pt(x: i64, y: i64) -> Point {
    Point { x, y }
}

#[test]
fn collapsed_zone_is_top_centered_on_the_pointer_display() {
    let cfg = NotchConfig::default();
    let displays = vec![screen(0, 0, 1_512_000, 982_000)];
    let zone = resolve_hover_zone(pt(756_000, 970_000), false, &displays, &cfg.hover).unwrap();
    assert_eq!(zone, Rect { x: 526_000, y: 932_000, width: 460_000, height: 50_000 });
}

#[test]
fn expanded_zone_uses_expanded_sizes() {
    let cfg = NotchConfig::default();
    let displays = vec![screen(0, 0, 1_512_000, 982_000)];
    let zone = resolve_hover_zone(pt(10, 10), true, &displays, &cfg.hover).unwrap();
    assert_eq!(zone, Rect { x: 406_000, y: 782_000, width: 700_000, height: 200_000 });
}

#[test]
fn pointer_off_every_display_has_no_zone() {
    let cfg = NotchConfig::default();
    let displays = vec![screen(0, 0, 1_000_000, 800_000), screen(1_000_000, 0, 500_000, 800_000)];
    assert_eq!(resolve_hover_zone(pt(-5, 10), false, &displays, &cfg.hover), None);
    assert!(!pointer_in_zone(pt(-5, 10), false, &displays, &cfg.hover));
    assert_eq!(resolve_hover_zone(pt(10, 10), false, &Vec::new(), &cfg.hover), None);
}

#[test]
fn first_listed_display_wins_on_overlap() {
    let a = screen(0, 0, 1_000_000, 800_000);
    let b = screen(500_000, 0, 1_000_000, 800_000);
    assert_eq!(display_at(pt(700_000, 100), &vec![a, b]), Some(a));
    assert_eq!(display_at(pt(700_000, 100), &vec![b, a]), Some(b));
    assert_eq!(display_at(pt(1_200_000, 100), &vec![a, b]), Some(b));
}

#[test]
fn second_display_zone_is_offset_by_its_origin() {
    let cfg = NotchConfig::default();
    let displays = vec![screen(0, 0, 1_000_000, 800_000), screen(1_000_000, -200_000, 1_920_000, 1_080_000)];
    let zone = resolve_hover_zone(pt(2_000_000, 0), false, &displays, &cfg.hover).unwrap();
    assert_eq!(zone, Rect { x: 1_730_000, y: 830_000, width: 460_000, height: 50_000 });
}

#[test]
fn zone_edges_count_as_inside() {
    let cfg = NotchConfig::default();
    let displays = vec![screen(0, 0, 1_512_000, 982_000)];
    assert!(pointer_in_zone(pt(526_000, 982_000), false, &displays, &cfg.hover));
    assert!(pointer_in_zone(pt(986_000, 932_000), false, &displays, &cfg.hover));
    assert!(!pointer_in_zone(pt(525_999, 960_000), false, &displays, &cfg.hover));
    assert!(!pointer_in_zone(pt(756_000, 931_999), false, &displays, &cfg.hover));
    assert!(pointer_in_zone(pt(756_000, 931_999), true, &displays, &cfg.hover));
}

#[test]
fn zone_wider_than_display_rounds_down() {
    let cfg = NotchConfig::default();
    let displays = vec![screen(0, 0, 400_001, 600_000)];
    let zone = resolve_hover_zone(pt(1, 1), false, &displays, &cfg.hover).unwrap();
    assert_eq!(zone.x, -30_000);
    assert_eq!(half_down(-59_999), -30_000);
    assert_eq!(half_down(7), 3);
    assert_eq!(half_down(-7), -4);
}

#[test]
fn same_inputs_give_the_same_zone() {
    let cfg = NotchConfig::default();
    let displays = vec![screen(0, 0, 1_512_000, 982_000), screen(1_512_000, 0, 1_920_000, 1_080_000)];
    for &(x, y) in &[(3, 4), (2_000_000, 5), (-1, -1), (756_000, 960_000)] {
        for &expanded in &[false, true] {
            let a = resolve_hover_zone(pt(x, y), expanded, &displays, &cfg.hover);
            let b = resolve_hover_zone(pt(x, y), expanded, &displays.clone(), &cfg.hover.clone());
            assert_eq!(a, b);
        }
    }
}

#[test]
fn rect_contains_handles_extreme_coordinates() {
    let r = Rect { x: i64::MAX - 5, y: 0, width: 10, height: 10 };
    assert!(r.contains(pt(i64::MAX, 5)));
    assert!(!r.contains(pt(i64::MIN, 5)));
}

#[test]
fn range_checks_match_the_representable_range() {
    let ok = screen(-COORD_LIMIT, 0, COORD_LIMIT, COORD_LIMIT);
    assert!(displays_in_range(&vec![ok]));
    assert!(displays_in_range(&Vec::new()));
    assert!(!displays_in_range(&vec![ok, screen(0, 0, -1, 10)]));
    assert!(!displays_in_range(&vec![screen(COORD_LIMIT + 1, 0, 1, 1)]));
    let mut cfg = NotchConfig::default();
    assert!(zone_sizes_in_range(&cfg.hover));
    cfg.hover.expanded_zone_height.value = COORD_LIMIT + 1;
    assert!(!zone_sizes_in_range(&cfg.hover));
    cfg.hover.expanded_zone_height.value = -1;
    assert!(!zone_sizes_in_range(&cfg.hover));
}
