//! What the client is told while a job or judge pod is watched.

use vstd::prelude::*;
use vstd::string::*;
use crate::error::JudgeError;
use crate::flow::{ExitCode, ExitMsg, JudgeEvent};
use crate::id::{uuid_parse, ID};

verus! {

/// One event of a watch on a job.
pub enum JobWatchEvent {
    /// The job was added; its uid where it has one.
    Added { uid: Option<String> },
    Modified,
    Deleted,
    Bookmark,
    /// The watch reported an error with this message.
    Error { message: String },
}

/// The event sent to the client for one event of a job watch: a job that is added
/// with a uid that reads as a UUID is reported created with that UUID; an error
/// ends the judge as a runtime error carrying its message; everything else is not
/// reported.
pub fn job_event(ev: JobWatchEvent) -> (r: Option<JudgeEvent>)
    ensures
        match ev {
            JobWatchEvent::Added { uid } => match uid {
                Some(u) => match uuid_parse(u@) {
                    Ok(b) => r matches Some(JudgeEvent::CreatedUuid { job_uuid }) && job_uuid@ == b,
                    Err(_) => r is None,
                },
                None => r is None,
            },
            JobWatchEvent::Error { message } => r == Some(
                JudgeEvent::Exit(ExitMsg { judge_code: ExitCode::RuntimeError, other_msg: Some(message) }),
            ),
            _ => r is None,
        },
{
    match ev {
        JobWatchEvent::Added { uid } => match uid {
            Some(u) => match ID::parse_bytes(u.as_str()) {
                Ok(b) => Some(JudgeEvent::CreatedUuid { job_uuid: b }),
                Err(_) => None,
            },
            None => None,
        },
        JobWatchEvent::Error { message } => Some(
            JudgeEvent::Exit(ExitMsg { judge_code: ExitCode::RuntimeError, other_msg: Some(message) }),
        ),
        _ => None,
    }
}

/// The field selector that picks the object named `name`.
pub fn name_selector(name: &str) -> (s: String)
    ensures
        s@ == "metadata.name="@ + name@,
{
    let mut s = "metadata.name=".to_owned();
    s.append(name);
    s
}

/// The label selector that picks the pod of judge `judge_id`.
pub fn judge_pod_selector(judge_id: &str) -> (s: String)
    ensures
        s@ == "judge-id="@ + judge_id@,
{
    let mut s = "judge-id=".to_owned();
    s.append(judge_id);
    s
}

/// The event announcing a judge pod, from its uid: only a uid that reads as a
/// UUID is announced.
pub fn created_event(uid: Option<String>) -> (r: Option<JudgeEvent>)
    ensures
        match uid {
            Some(u) => match uuid_parse(u@) {
                Ok(b) => r matches Some(JudgeEvent::CreatedUuid { job_uuid }) && job_uuid@ == b,
                Err(_) => r is None,
            },
            None => r is None,
        },
{
    job_event(JobWatchEvent::Added { uid })
}

/// How a launched judge ends: where it ran out of time (`outcome` is `None`) the
/// client is told the time limit was exceeded and the launch succeeds; otherwise
/// the launch ends as the judge did.
pub fn launch_result(outcome: Option<Result<(), JudgeError>>) -> (r: (Option<JudgeEvent>, Result<(), JudgeError>))
    ensures
        match outcome {
            None => r.0 == Some(
                JudgeEvent::Exit(ExitMsg { judge_code: ExitCode::TimeLimitExceeded, other_msg: None }),
            ) && r.1 is Ok,
            Some(res) => r.0 is None && r.1 == res,
        },
{
    match outcome {
        None => (
            Some(JudgeEvent::Exit(ExitMsg { judge_code: ExitCode::TimeLimitExceeded, other_msg: None })),
            Ok(()),
        ),
        Some(res) => (None, res),
    }
}

} // verus!
