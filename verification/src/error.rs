//! Errors of a judge, and how they reach the client.

use vstd::prelude::*;
use vstd::string::*;
use crate::flow::JudgeEvent;

verus! {

/// What went wrong while running a judge.
pub enum JudgeError {
    /// No pod of the job appeared.
    PodJobNotFoundError { job_name: String },
    /// The cluster refused a request; its message.
    KubeError(String),
    /// A deadline passed.
    Timeout,
    /// Copying between the containers' streams failed; what happened.
    Log(String),
    /// The pod of the job does not offer the streams to bind.
    IOBindingFail { job_name: String, pod_name: String },
}

/// The text of a judge error.
pub open spec fn judge_error_text(e: JudgeError) -> Seq<char> {
    match e {
        JudgeError::PodJobNotFoundError { job_name } => "Pod of job "@ + job_name@ + " not found"@,
        JudgeError::KubeError(m) => m@,
        JudgeError::Timeout => "deadline has elapsed"@,
        JudgeError::Log(m) => m@,
        JudgeError::IOBindingFail { job_name, pod_name } => "Pod "@ + pod_name@ + " of job "@ + job_name@
            + " offers no stdin/stdout to bind"@,
    }
}

impl JudgeError {
    /// The text of the error.
    pub fn message(&self) -> (s: String)
        ensures
            s@ == judge_error_text(*self),
    {
        match self {
            JudgeError::PodJobNotFoundError { job_name } => {
                let mut s = "Pod of job ".to_owned();
                s.append(job_name.as_str());
                s.append(" not found");
                s
            },
            JudgeError::KubeError(m) => m.clone(),
            JudgeError::Timeout => "deadline has elapsed".to_owned(),
            JudgeError::Log(m) => m.clone(),
            JudgeError::IOBindingFail { job_name, pod_name } => {
                let mut s = "Pod ".to_owned();
                s.append(pod_name.as_str());
                s.append(" of job ");
                s.append(job_name.as_str());
                s.append(" offers no stdin/stdout to bind");
                s
            },
        }
    }
}

/// The outcome of a step of a judge: its value where it succeeded; where it
/// failed, nothing, and the error event to send to the client instead.
pub fn wrap_error<T>(r: Result<T, String>) -> (out: (Option<T>, Option<JudgeEvent>))
    ensures
        match r {
            Ok(v) => out.0 == Some(v) && out.1 is None,
            Err(m) => out.0 is None && out.1 == Some(JudgeEvent::Error { msg: m }),
        },
{
    match r {
        Ok(v) => (Some(v), None),
        Err(m) => (None, Some(JudgeEvent::Error { msg: m })),
    }
}

/// Looking at the error of a result, on the way, without changing the result.
pub trait ResultInspectErr<F, E>: Sized {
    /// `f` may be called on the value.
    spec fn inspect_err_allows(&self, f: &F) -> bool;

    /// What holds once `f` has been called on the value, where it is called.
    spec fn inspected_by(&self, f: &F) -> bool;

    /// Calls `f` on the error, if there is one, and gives the value back.
    fn inspect_err(self, f: F) -> (r: Self)
        requires
            self.inspect_err_allows(&f),
        ensures
            r == self,
            self.inspected_by(&f),
    ;
}

impl<F, T, E> ResultInspectErr<F, E> for Result<T, E> where F: FnOnce(&E) {
    open spec fn inspect_err_allows(&self, f: &F) -> bool {
        match self {
            Err(e) => f.requires((e,)),
            Ok(_) => true,
        }
    }

    /// Where the value is an error, `f` was called on it and returned.
    open spec fn inspected_by(&self, f: &F) -> bool {
        match self {
            Err(e) => f.ensures((e,), ()),
            Ok(_) => true,
        }
    }

    fn inspect_err(self, f: F) -> (r: Self) {
        if let Err(ref e) = self {
            f(e);
        }
        self
    }
}

} // verus!
