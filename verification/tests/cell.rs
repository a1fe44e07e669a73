use condition_variable::ConditionVariable;
use condition_variable::Notify;
use condition_variable::slice_contains;

use std::time::Duration;
use std::time::Instant;

#[test]
fn test_new_then_get() {
    let cell = ConditionVariable::new(5u32);
    assert_eq!(cell.get().unwrap(), 5);
}

#[test]
fn test_set_then_get() {
    let cell = ConditionVariable::new(0u32);
    cell.set(7, Notify::One).unwrap();
    assert_eq!(cell.get().unwrap(), 7);
    cell.set(9, Notify::All).unwrap();
    assert_eq!(cell.get().unwrap(), 9);
}

#[test]
fn test_wait_for_matching_value() {
    let cell = ConditionVariable::new(true);
    cell.wait_for(true).unwrap();
}

#[test]
fn test_wait_for_in_matching_value() {
    let cell = ConditionVariable::new('b');
    cell.wait_for_in(&['a', 'b', 'c']).unwrap();
}

#[test]
fn test_wait_for_condition_matching_value() {
    let cell = ConditionVariable::new(41u64);
    cell.wait_for_condition(|v| *v > 40).unwrap();
}

#[test]
fn test_wait_for_ms_matching_value_returns_at_once() {
    let cell = ConditionVariable::new(3u8);
    let start = Instant::now();
    assert_eq!(cell.wait_for_ms(3, 10000).unwrap(), true);
    assert!(start.elapsed() < Duration::from_millis(5000));
}

#[test]
fn test_wait_for_ms_times_out() {
    let cell = ConditionVariable::new(false);
    let start = Instant::now();
    assert_eq!(cell.wait_for_ms(true, 200).unwrap(), false);
    let elapsed = start.elapsed();
    assert!(elapsed >= Duration::from_millis(200));
    assert!(elapsed < Duration::from_millis(10000));
}

#[test]
fn test_wait_for_condition_ms_never_true_spends_budget() {
    let cell = ConditionVariable::new(0i32);
    let start = Instant::now();
    assert_eq!(cell.wait_for_condition_ms(|_| false, 150).unwrap(), false);
    let elapsed = start.elapsed();
    assert!(elapsed >= Duration::from_millis(150));
    assert!(elapsed < Duration::from_millis(10000));
}

#[test]
fn test_wait_for_condition_ms_zero_budget_checks_once() {
    let cell = ConditionVariable::new(7u32);
    assert_eq!(cell.wait_for_condition_ms(|v| *v == 7, 0).unwrap(), true);
    assert_eq!(cell.wait_for_condition_ms(|v| *v == 8, 0).unwrap(), false);
}

#[test]
fn test_wait_for_condition_ms_negative_budget_checks_once() {
    let cell = ConditionVariable::new(7u32);
    assert_eq!(cell.wait_for_condition_ms(|v| *v == 7, -5).unwrap(), true);
    assert_eq!(cell.wait_for_condition_ms(|v| *v == 8, -5).unwrap(), false);
}

#[test]
fn test_wait_for_in_ms_empty_set_never_matches() {
    let cell = ConditionVariable::new(1u8);
    assert_eq!(cell.wait_for_in_ms(&[], 100).unwrap(), false);
}

#[test]
fn test_wait_for_in_ms_matching_value() {
    let cell = ConditionVariable::new(2u8);
    assert_eq!(cell.wait_for_in_ms(&[1, 2], 10000).unwrap(), true);
}

#[test]
fn test_wait_ms_reports_timeout() {
    let cell = ConditionVariable::new(());
    let start = Instant::now();
    assert_eq!(cell.wait_ms(100).unwrap(), true);
    assert!(start.elapsed() >= Duration::from_millis(100));
}

#[test]
fn test_slice_contains() {
    assert!(slice_contains(&[1u32, 2, 3], &2));
    assert!(!slice_contains(&[1u32, 2, 3], &5));
    let empty: [u32; 0] = [];
    assert!(!slice_contains(&empty, &1));
}
