use nanocl_job::instance::{count_instances, InstanceInspect, InstanceState};

fn inspect(id: &str, running: Option<bool>, exit_code: Option<i64>, error: Option<&str>) -> InstanceInspect {
    InstanceInspect {
        id: Some(id.to_string()),
        state: Some(InstanceState { running, exit_code, error: error.map(|e| e.to_string()) }),
    }
}

#[test]
fn running_instance_ignores_exit_code() {
    let v = vec![inspect("a", Some(true), Some(1), None)];
    assert_eq!(count_instances(&v), (1, 0, 0, 1));
}

#[test]
fn stopped_with_zero_exit_is_one_success() {
    let v = vec![inspect("a", Some(false), Some(0), Some(""))];
    assert_eq!(count_instances(&v), (1, 0, 1, 0));
}

#[test]
fn failure_with_error_counts_twice() {
    let v = vec![inspect("a", Some(false), Some(1), Some("oom"))];
    assert_eq!(count_instances(&v), (1, 2, 0, 0));
}

#[test]
fn empty_set_counts_nothing() {
    let v: Vec<InstanceInspect> = vec![];
    assert_eq!(count_instances(&v), (0, 0, 0, 0));
}

#[test]
fn unknown_state_is_unclassified() {
    let v = vec![
        InstanceInspect { id: Some("a".to_string()), state: None },
        inspect("b", None, None, None),
    ];
    assert_eq!(count_instances(&v), (2, 0, 0, 0));
}

#[test]
fn zero_exit_with_error_counts_both() {
    let v = vec![inspect("a", None, Some(0), Some("lost"))];
    assert_eq!(count_instances(&v), (1, 1, 1, 0));
}

#[test]
fn mixed_set_stays_within_twice_total() {
    let v = vec![
        inspect("a", Some(true), None, None),
        inspect("b", Some(false), Some(0), None),
        inspect("c", Some(false), Some(137), Some("killed")),
        inspect("d", Some(false), Some(2), None),
        inspect("e", Some(false), None, None),
    ];
    let (total, failed, succeeded, running) = count_instances(&v);
    assert_eq!((total, failed, succeeded, running), (5, 3, 1, 1));
    assert!(running <= total);
    assert!(running + succeeded + failed <= 2 * total);
}
