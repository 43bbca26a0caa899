use vstd::prelude::*;

verus! {

/// Detail the runtime gives when a wait ended abnormally.
#[derive(Debug, Clone, PartialEq, Eq)]
pub struct WaitExitError {
    pub message: Option<String>,
}

/// One element of a job's merged wait stream.
#[derive(Debug, Clone, PartialEq, Eq)]
pub struct WaitRecord {
    pub container_name: String,
    pub status_code: i64,
    pub error: Option<WaitExitError>,
}

/// One element of a job's merged log stream.
#[derive(Debug, Clone, PartialEq, Eq)]
pub struct LogRecord {
    pub container_name: String,
    pub log: Vec<u8>,
}

/// What a per-instance wait stream yields.
#[derive(Debug, Clone, PartialEq, Eq)]
pub enum WaitEvent<E> {
    /// The condition was met; the runtime reports a status code.
    Exited { status_code: i64, error: Option<WaitExitError> },
    /// The runtime classified the wait itself as failed (the container was
    /// removed while waiting, for instance).
    WaitFailed { message: String, code: i64 },
    /// Any other failure talking to the runtime.
    Transport(E),
}

/// The merged-stream element for one wait event of the instance `name`.
pub open spec fn wait_result<E>(name: String, event: WaitEvent<E>) -> Result<WaitRecord, E> {
    match event {
        WaitEvent::Exited { status_code, error } => Ok(
            WaitRecord { container_name: name, status_code, error },
        ),
        WaitEvent::WaitFailed { message, code } => Ok(
            WaitRecord {
                container_name: name,
                status_code: code,
                error: Some(WaitExitError { message: Some(message) }),
            },
        ),
        WaitEvent::Transport(e) => Err(e),
    }
}

/// Maps one wait event of the instance `container_name` into the merged
/// stream. Only a transport failure is an error there: a failed wait becomes
/// a record that carries the runtime's message and code, so the other
/// instances' results still come through.
pub fn wait_record<E>(container_name: &String, event: WaitEvent<E>) -> (r: Result<WaitRecord, E>)
    ensures
        r == wait_result(*container_name, event),
        r is Err <==> event is Transport,
{
    match event {
        WaitEvent::Exited { status_code, error } => Ok(
            WaitRecord { container_name: container_name.clone(), status_code, error },
        ),
        WaitEvent::WaitFailed { message, code } => Ok(
            WaitRecord {
                container_name: container_name.clone(),
                status_code: code,
                error: Some(WaitExitError { message: Some(message) }),
            },
        ),
        WaitEvent::Transport(e) => Err(e),
    }
}

/// Maps one chunk of the log stream of the instance `container_name` into
/// the merged stream; a transport failure stays an error.
pub fn log_record<E>(container_name: &String, chunk: Result<Vec<u8>, E>) -> (r: Result<
    LogRecord,
    E,
>)
    ensures
        chunk matches Err(e) ==> r == Err::<LogRecord, E>(e),
        chunk matches Ok(log) ==> r == Ok::<LogRecord, E>(
            LogRecord { container_name: *container_name, log },
        ),
{
    match chunk {
        Ok(log) => Ok(LogRecord { container_name: container_name.clone(), log }),
        Err(e) => Err(e),
    }
}

/// However the per-instance wait streams interleave, an element of the merged
/// stream is an error only where the runtime failed in transport: every
/// instance whose wait failed still yields a record, so the merge has one
/// record for each event when no transport failure occurs.
pub proof fn lemma_wait_failures_stay_in_band<E>(merged: Seq<(String, WaitEvent<E>)>)
    ensures
        forall|i: int|
            0 <= i < merged.len() ==> (wait_result(merged[i].0, merged[i].1) is Err
                <==> (#[trigger] merged[i]).1 is Transport),
        (forall|i: int| 0 <= i < merged.len() ==> !((#[trigger] merged[i]).1 is Transport))
            ==> forall|i: int|
            0 <= i < merged.len() ==> (#[trigger] wait_result(merged[i].0, merged[i].1)) is Ok,
{
}

} // verus!
