use const_tweaker::registry::Registry;

#[test]
fn it_works() {
    assert_eq!(2 + 2, 4);
}

#[test]
fn default_honored_only_on_first_touch() {
    let mut reg = Registry::new();
    let d1 = 1.5f64.to_bits();
    let d2 = 2.5f64.to_bits();
    assert_ne!(d1, d2);
    assert_eq!(reg.float_get_or_insert("k", d1), d1);
    assert_eq!(reg.float_get_or_insert("k", d2), d1);
    assert_eq!(reg.bool_get_or_insert("flag", true), true);
    assert_eq!(reg.bool_get_or_insert("flag", false), true);
}

#[test]
fn repeated_first_touch_keeps_one_entry() {
    let mut reg = Registry::new();
    let d = 7.25f64.to_bits();
    for _ in 0..16 {
        assert_eq!(reg.float_get_or_insert("k", d), d);
    }
    let snapshot = reg.float_snapshot();
    assert_eq!(snapshot.len(), 1);
    assert_eq!(snapshot[0].0, "k");
    assert_eq!(snapshot[0].1, d);
}

#[test]
fn set_on_unread_key_is_noop() {
    let mut reg = Registry::new();
    reg.set_float("never_read", 3.0f64.to_bits());
    assert!(reg.float_snapshot().is_empty());
    let d = 9.5f64.to_bits();
    assert_eq!(reg.float_get_or_insert("never_read", d), d);

    reg.set_bool("never_read_bool", true);
    assert!(reg.bool_snapshot().is_empty());
    assert_eq!(reg.bool_get_or_insert("never_read_bool", false), false);
}

#[test]
fn set_after_seed_updates_stored_value() {
    let mut reg = Registry::new();
    let d = 9.8f64.to_bits();
    let v = 3.0f64.to_bits();
    assert_eq!(reg.float_get_or_insert("gravity", d), d);
    reg.set_float("gravity", v);
    assert_eq!(reg.float_get_or_insert("gravity", 0.0f64.to_bits()), v);

    assert_eq!(reg.bool_get_or_insert("paused", false), false);
    reg.set_bool("paused", true);
    assert_eq!(reg.bool_get_or_insert("paused", false), true);
}

#[test]
fn key_namespaces_are_independent_per_type() {
    let mut reg = Registry::new();
    let d = 4.0f64.to_bits();
    assert_eq!(reg.float_get_or_insert("shared", d), d);
    assert_eq!(reg.bool_get_or_insert("shared", true), true);
    reg.set_bool("shared", false);
    assert_eq!(reg.float_get_or_insert("shared", 0), d);
    assert_eq!(reg.bool_get_or_insert("shared", true), false);
}

#[test]
fn snapshot_lists_every_entry_once() {
    let mut reg = Registry::new();
    let a = 1.0f64.to_bits();
    let b = 2.0f64.to_bits();
    reg.float_get_or_insert("a", a);
    reg.float_get_or_insert("b", b);
    let mut snapshot = reg.float_snapshot();
    snapshot.sort();
    assert_eq!(snapshot, vec![("a".to_string(), a), ("b".to_string(), b)]);
    assert!(reg.bool_snapshot().is_empty());
}

#[test]
fn handles_read_through_the_registry() {
    let mut reg = Registry::new();
    let speed = reg.declare_float("speed".to_string(), 2.0f64.to_bits());
    let debug = reg.declare_bool("debug".to_string(), false);
    // Declaration creates no entry.
    assert!(reg.float_snapshot().is_empty());
    assert!(reg.bool_snapshot().is_empty());
    assert_eq!(f64::from_bits(speed.value(&mut reg)), 2.0);
    assert_eq!(debug.value(&mut reg), false);
    reg.set_float("speed", 6.5f64.to_bits());
    assert_eq!(f64::from_bits(speed.value(&mut reg)), 6.5);
}
