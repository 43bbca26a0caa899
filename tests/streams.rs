use nanocl_job::stream::{log_record, wait_record, LogRecord, WaitEvent, WaitExitError, WaitRecord};
use nanocl_job::text::instance_name;

#[test]
fn wait_error_of_one_instance_does_not_end_the_merge() {
    let a: WaitEvent<String> = WaitEvent::WaitFailed { message: "container removed".to_string(), code: 137 };
    let b: WaitEvent<String> = WaitEvent::Exited { status_code: 0, error: None };
    let merged: Vec<Result<WaitRecord, String>> =
        vec![wait_record(&"a".to_string(), a), wait_record(&"b".to_string(), b)];
    assert_eq!(merged.iter().filter(|r| r.is_ok()).count(), 2);
    assert_eq!(
        merged[0],
        Ok(WaitRecord {
            container_name: "a".to_string(),
            status_code: 137,
            error: Some(WaitExitError { message: Some("container removed".to_string()) }),
        })
    );
    assert_eq!(
        merged[1],
        Ok(WaitRecord { container_name: "b".to_string(), status_code: 0, error: None })
    );
}

#[test]
fn wait_transport_error_is_a_stream_error() {
    let e: WaitEvent<String> = WaitEvent::Transport("connection reset".to_string());
    assert_eq!(wait_record(&"a".to_string(), e), Err("connection reset".to_string()));
}

#[test]
fn wait_exit_keeps_runtime_error() {
    let e: WaitEvent<String> = WaitEvent::Exited {
        status_code: 1,
        error: Some(WaitExitError { message: Some("exit".to_string()) }),
    };
    assert_eq!(
        wait_record(&"job-a".to_string(), e),
        Ok(WaitRecord {
            container_name: "job-a".to_string(),
            status_code: 1,
            error: Some(WaitExitError { message: Some("exit".to_string()) }),
        })
    );
}

#[test]
fn log_chunk_is_tagged_with_instance() {
    let r: Result<LogRecord, String> = log_record(&"web".to_string(), Ok(b"hello\n".to_vec()));
    assert_eq!(r, Ok(LogRecord { container_name: "web".to_string(), log: b"hello\n".to_vec() }));
    let e: Result<LogRecord, String> = log_record(&"web".to_string(), Err("eof".to_string()));
    assert_eq!(e, Err("eof".to_string()));
}

#[test]
fn instance_name_strips_runtime_prefix() {
    assert_eq!(instance_name(&Some(vec!["/backup-job-1".to_string()])), "backup-job-1");
    assert_eq!(instance_name(&Some(vec!["/a".to_string(), "/b/c".to_string()])), "abc");
    assert_eq!(instance_name(&None), "");
    assert_eq!(instance_name(&Some(vec![])), "");
    assert_eq!(instance_name(&Some(vec!["é/ü".to_string()])), "éü");
}
