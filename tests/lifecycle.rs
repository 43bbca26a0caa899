use nanocl_job::fanout::{join_results, record_step, start_plan, RecordStep, StartAction, StartRun};
use nanocl_job::instance::{InstanceInspect, InstanceState};
use nanocl_job::label::{job_label_filter, with_job_label, JOB_LABEL_KEY};

fn inspect(id: &str, running: bool) -> InstanceInspect {
    InstanceInspect {
        id: Some(id.to_string()),
        state: Some(InstanceState { running: Some(running), exit_code: None, error: None }),
    }
}

#[test]
fn start_skips_running_instance_and_keeps_order() {
    let v = vec![inspect("spec1", false), inspect("spec2", true), inspect("spec3", false)];
    assert_eq!(start_plan(&v), vec!["spec1".to_string(), "spec3".to_string()]);
}

#[test]
fn start_plan_uses_empty_id_when_missing() {
    let v = vec![InstanceInspect { id: None, state: None }];
    assert_eq!(start_plan(&v), vec![String::new()]);
}

#[test]
fn start_plan_all_running_is_empty() {
    let v = vec![inspect("a", true), inspect("b", true)];
    assert!(start_plan(&v).is_empty());
}

#[test]
fn create_returns_the_single_error() {
    let results: Vec<Result<String, String>> =
        vec![Ok("c1".to_string()), Err("no such image".to_string()), Ok("c3".to_string())];
    assert_eq!(join_results(results), Err("no such image".to_string()));
}

#[test]
fn join_returns_first_of_several_errors() {
    let results: Vec<Result<u32, &str>> = vec![Ok(1), Err("first"), Err("second")];
    assert_eq!(join_results(results), Err("first"));
}

#[test]
fn join_keeps_all_values_in_order() {
    let results: Vec<Result<u32, &str>> = vec![Ok(3), Ok(1), Ok(2)];
    assert_eq!(join_results(results), Ok(vec![3, 1, 2]));
    let none: Vec<Result<u32, &str>> = vec![];
    assert_eq!(join_results(none), Ok(vec![]));
}

#[test]
fn delete_removes_record_when_all_removals_succeed() {
    let removals: Vec<Result<(), String>> = vec![Ok(()), Ok(())];
    assert_eq!(record_step(removals), RecordStep::Delete);
    let none: Vec<Result<(), String>> = vec![];
    assert_eq!(record_step(none), RecordStep::Delete);
}

#[test]
fn delete_keeps_record_when_a_removal_fails() {
    let removals: Vec<Result<(), String>> = vec![Ok(()), Err("busy".to_string()), Ok(())];
    assert_eq!(record_step(removals), RecordStep::Keep("busy".to_string()));
}

#[test]
fn label_filter_names_the_job() {
    assert_eq!(job_label_filter("backup"), "io.nanocl.job=backup");
    assert_eq!(JOB_LABEL_KEY, "io.nanocl.job");
}

#[test]
fn job_label_added_to_no_labels() {
    assert_eq!(
        with_job_label(None, "backup"),
        vec![("io.nanocl.job".to_string(), "backup".to_string())]
    );
}

#[test]
fn job_label_merged_into_user_labels() {
    let labels = vec![("tier".to_string(), "db".to_string())];
    assert_eq!(
        with_job_label(Some(labels), "backup"),
        vec![
            ("tier".to_string(), "db".to_string()),
            ("io.nanocl.job".to_string(), "backup".to_string()),
        ]
    );
}

#[test]
fn job_label_overrides_user_value() {
    let labels = vec![
        ("io.nanocl.job".to_string(), "other".to_string()),
        ("tier".to_string(), "db".to_string()),
    ];
    assert_eq!(
        with_job_label(Some(labels), "backup"),
        vec![
            ("io.nanocl.job".to_string(), "backup".to_string()),
            ("tier".to_string(), "db".to_string()),
        ]
    );
}

#[test]
fn start_run_issues_starts_in_order_then_finishes() {
    let v = vec![inspect("spec1", false), inspect("spec2", true), inspect("spec3", false)];
    let mut run = StartRun::new(&v);
    assert_eq!(run.next, 0);
    let mut issued: Vec<String> = vec![];
    let mut last: Result<(), String> = Ok(());
    loop {
        match run.step(last) {
            StartAction::Start(id) => {
                issued.push(id);
                last = Ok(());
            }
            StartAction::Finish => break,
            StartAction::Fail(e) => panic!("unexpected failure {e}"),
        }
    }
    assert_eq!(issued, vec!["spec1".to_string(), "spec3".to_string()]);
}

#[test]
fn start_run_stops_at_first_failure() {
    let v = vec![inspect("a", false), inspect("b", false), inspect("c", false)];
    let mut run = StartRun::new(&v);
    assert!(matches!(run.step::<String>(Ok(())), StartAction::Start(ref id) if id == "a"));
    match run.step(Err("no such container".to_string())) {
        StartAction::Fail(e) => assert_eq!(e, "no such container"),
        _ => panic!("expected failure"),
    }
    assert_eq!(run.next, 1);
}
