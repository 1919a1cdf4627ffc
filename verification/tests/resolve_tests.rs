use asusctl::error::CmdError;
use asusctl::resolve::{resolve, str_eq_chars, str_le, BusObject};

fn obj(path: &str, interfaces: &[&str]) -> BusObject {
    BusObject {
        path: String::from(path),
        interfaces: interfaces.iter().map(|s| String::from(*s)).collect(),
    }
}

fn mock_objects() -> Vec<BusObject> {
    vec![
        obj("/xyz/ljones/asusd/aura_b", &["xyz.ljones.Aura", "org.freedesktop.DBus.Properties"]),
        obj("/xyz/ljones/asusd/slash", &["xyz.ljones.Slash"]),
        obj("/xyz/ljones/asusd/aura_a", &["xyz.ljones.Aura"]),
        obj("/xyz/ljones/asusd/platform", &["xyz.ljones.Platform"]),
    ]
}

#[test]
fn resolve_orders_paths_lexicographically() {
    let handles = resolve("xyz.ljones.Aura", &mock_objects()).unwrap();
    let paths: Vec<&str> = handles.iter().map(|h| h.path.as_str()).collect();
    assert_eq!(paths, vec!["/xyz/ljones/asusd/aura_a", "/xyz/ljones/asusd/aura_b"]);
}

#[test]
fn resolve_returns_the_same_order_on_every_call() {
    let objects = mock_objects();
    let first = resolve("xyz.ljones.Aura", &objects).unwrap();
    let second = resolve("xyz.ljones.Aura", &objects).unwrap();
    let first_paths: Vec<&str> = first.iter().map(|h| h.path.as_str()).collect();
    let second_paths: Vec<&str> = second.iter().map(|h| h.path.as_str()).collect();
    assert_eq!(first_paths, second_paths);
}

#[test]
fn resolve_with_no_matching_object_reports_no_device() {
    assert!(matches!(resolve("xyz.Aura", &mock_objects()), Err(CmdError::NoDeviceFound)));
}

#[test]
fn resolve_over_empty_listing_reports_no_device() {
    let objects: Vec<BusObject> = Vec::new();
    assert!(matches!(resolve("xyz.ljones.Aura", &objects), Err(CmdError::NoDeviceFound)));
}

#[test]
fn resolve_finds_single_interface_among_many() {
    let handles = resolve("xyz.ljones.Slash", &mock_objects()).unwrap();
    assert_eq!(handles.len(), 1);
    assert_eq!(handles[0].path.as_str(), "/xyz/ljones/asusd/slash");
}

#[test]
fn interface_name_match_is_exact() {
    let objects = vec![obj("/a", &["xyz.ljones.AuraExtra"])];
    assert!(matches!(resolve("xyz.ljones.Aura", &objects), Err(CmdError::NoDeviceFound)));
}

#[test]
fn unresolved_interface_exits_nonzero_with_no_writes() {
    let result = resolve("xyz.Aura", &mock_objects());
    assert!(matches!(result, Err(CmdError::NoDeviceFound)));
    // No handle exists, so no per-device write is ever attempted; the
    // dispatcher records the resolution failure alone.
    let reports: Vec<asusctl::dispatch::DeviceReport> = Vec::new();
    assert_ne!(asusctl::dispatch::exit_code(false, &reports), 0);
}

#[test]
fn string_comparison_is_lexicographic() {
    assert!(str_le("", "a"));
    assert!(str_le("a", "a"));
    assert!(str_le("a", "b"));
    assert!(!str_le("b", "a"));
    assert!(str_le("ab", "abc"));
    assert!(!str_le("abc", "ab"));
    assert!(str_le("/dev/a10", "/dev/a9"));
}

#[test]
fn string_equality_is_by_characters() {
    assert!(str_eq_chars("xyz.ljones.Aura", "xyz.ljones.Aura"));
    assert!(!str_eq_chars("xyz.ljones.Aura", "xyz.ljones.aura"));
    assert!(!str_eq_chars("abc", "ab"));
    assert!(str_eq_chars("", ""));
}
