use const_tweaker::control::{apply_bool_update, apply_float_update};
use const_tweaker::registry::Registry;
use const_tweaker::wire::{parse_set_bool_body, parse_set_float_body};

#[test]
fn declared_float_follows_a_posted_update() {
    let mut reg = Registry::new();
    let gravity = reg.declare_float("gravity".to_string(), 9.8f64.to_bits());
    assert_eq!(f64::from_bits(gravity.value(&mut reg)), 9.8);
    let status = apply_float_update(
        &mut reg,
        Some(("gravity".to_string(), 3.0f64.to_bits())),
    );
    assert_eq!(status, 200);
    assert_eq!(f64::from_bits(gravity.value(&mut reg)), 3.0);
}

#[test]
fn update_to_an_unread_bool_is_dropped() {
    let mut reg = Registry::new();
    let paused = reg.declare_bool("paused".to_string(), false);
    // Never read before the update arrives.
    let status = apply_bool_update(&mut reg, Some(("paused".to_string(), true)));
    assert_eq!(status, 200);
    assert_eq!(paused.value(&mut reg), false);
}

#[test]
fn malformed_body_is_refused_and_changes_nothing() {
    let mut reg = Registry::new();
    let gravity = reg.declare_float("gravity".to_string(), 9.8f64.to_bits());
    assert_eq!(f64::from_bits(gravity.value(&mut reg)), 9.8);
    assert_eq!(apply_float_update(&mut reg, None), 400);
    assert_eq!(apply_bool_update(&mut reg, None), 400);
    assert_eq!(f64::from_bits(gravity.value(&mut reg)), 9.8);
    assert!(reg.bool_snapshot().is_empty());
}

#[test]
fn acknowledged_update_to_existing_bool_applies() {
    let mut reg = Registry::new();
    assert_eq!(reg.bool_get_or_insert("visible", true), true);
    let status = apply_bool_update(&mut reg, Some(("visible".to_string(), false)));
    assert_eq!(status, 200);
    assert_eq!(reg.bool_get_or_insert("visible", true), false);
}

#[test]
fn posted_body_drives_the_float_route() {
    let mut reg = Registry::new();
    let gravity = reg.declare_float("gravity".to_string(), 9.8f64.to_bits());
    assert_eq!(f64::from_bits(gravity.value(&mut reg)), 9.8);
    let parsed = parse_set_float_body("{\"key\":\"gravity\",\"value\":3.0}")
        .and_then(|(k, t)| t.parse::<f64>().ok().map(|v| (k, v.to_bits())));
    assert_eq!(apply_float_update(&mut reg, parsed), 200);
    assert_eq!(f64::from_bits(gravity.value(&mut reg)), 3.0);
}

#[test]
fn posted_body_to_an_unread_bool_is_acknowledged_and_dropped() {
    let mut reg = Registry::new();
    let paused = reg.declare_bool("paused".to_string(), false);
    let parsed = parse_set_bool_body("{\"key\":\"paused\",\"value\":true}");
    assert_eq!(apply_bool_update(&mut reg, parsed), 200);
    assert_eq!(paused.value(&mut reg), false);
}
