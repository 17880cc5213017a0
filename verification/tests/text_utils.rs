use flashpods::clock::now_seconds;
use flashpods::text::{dec_string, sat_add_i64, str_contains, str_eq, str_eq_lower};

#[test]
fn test_str_eq() {
    assert!(str_eq("hello", "hello"));
    assert!(!str_eq("hello", "hellO"));
    assert!(!str_eq("hello", "hell"));
    assert!(str_eq("", ""));
}

#[test]
fn test_str_eq_lower() {
    assert!(str_eq_lower("WORKER", "worker"));
    assert!(str_eq_lower("Worker", "worker"));
    assert!(str_eq_lower("worker", "worker"));
    assert!(!str_eq_lower("werker", "worker"));
}

#[test]
fn test_str_contains() {
    assert!(str_contains("Error: no such container c7", "no such container"));
    assert!(str_contains("abc", ""));
    assert!(str_contains("abc", "abc"));
    assert!(!str_contains("ab", "abc"));
    assert!(!str_contains("no such  container", "no such container"));
}

#[test]
fn test_dec_string() {
    assert_eq!(dec_string(0), "0");
    assert_eq!(dec_string(7), "7");
    assert_eq!(dec_string(10), "10");
    assert_eq!(dec_string(12345), "12345");
    assert_eq!(dec_string(u64::MAX), "18446744073709551615");
}

#[test]
fn test_sat_add() {
    assert_eq!(sat_add_i64(1, 2), 3);
    assert_eq!(sat_add_i64(i64::MAX, 1), i64::MAX);
    assert_eq!(sat_add_i64(i64::MAX - 1, 1), i64::MAX);
    assert_eq!(sat_add_i64(0, 0), 0);
}

#[test]
fn test_clock_in_supported_range() {
    let t = now_seconds();
    // After 2020, and far before the model's horizon.
    assert!(t > 1_577_836_800);
    assert!(t <= 4_000_000_000_000);
}
