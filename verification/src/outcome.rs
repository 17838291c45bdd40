//! What a step reports back, and the ways a run can fail.

use vstd::prelude::*;
use vstd::string::StringExecFns;

verus! {

/// A landing check that did not pass.
#[derive(Clone, Copy, Debug, PartialEq, Eq, Structural)]
pub enum GateFailure {
    /// The login page came back after the credentials were submitted.
    LoginRejected,
    /// The forum section was not reached.
    ForumNotReached,
    /// The click on the day's thread did not lead to a thread.
    ThreadNotReached,
}

/// Why a run failed.
#[derive(Debug)]
pub enum RunError {
    /// The driver executable could not be started.
    DriverStart(String),
    /// A call to the browser failed.
    Protocol(String),
    /// The browser did not land where a step expected it.
    Gate(GateFailure),
    /// The driver process could not be killed.
    Teardown(String),
}

/// The mathematical content of [`RunError`].
pub ghost enum RunErrorView {
    DriverStart(Seq<char>),
    Protocol(Seq<char>),
    Gate(GateFailure),
    Teardown(Seq<char>),
}

impl View for RunError {
    type V = RunErrorView;

    open spec fn view(&self) -> RunErrorView {
        match self {
            RunError::DriverStart(detail) => RunErrorView::DriverStart(detail@),
            RunError::Protocol(detail) => RunErrorView::Protocol(detail@),
            RunError::Gate(gate) => RunErrorView::Gate(*gate),
            RunError::Teardown(detail) => RunErrorView::Teardown(detail@),
        }
    }
}

impl Clone for RunError {
    fn clone(&self) -> (copy: Self)
        ensures
            copy@ == self@,
    {
        match self {
            RunError::DriverStart(detail) => RunError::DriverStart(detail.clone()),
            RunError::Protocol(detail) => RunError::Protocol(detail.clone()),
            RunError::Gate(gate) => RunError::Gate(*gate),
            RunError::Teardown(detail) => RunError::Teardown(detail.clone()),
        }
    }
}

/// The error of a run that may have none.
pub open spec fn error_view(error: Option<RunError>) -> Option<RunErrorView> {
    match error {
        Some(e) => Some(e@),
        None => None,
    }
}

impl GateFailure {
    /// The message of the error that this failure ends the run with.
    pub open spec fn message_text(self) -> Seq<char> {
        match self {
            GateFailure::LoginRejected => "Failed to login."@,
            GateFailure::ForumNotReached => "Failed to go to the forum page."@,
            GateFailure::ThreadNotReached => "Failed to go to the target post."@,
        }
    }

    /// The line printed when this failure is met.
    pub open spec fn line_text(self) -> Seq<char> {
        match self {
            GateFailure::LoginRejected => "=> Failed to login."@,
            GateFailure::ForumNotReached => "=> Failed to go to the forum page."@,
            GateFailure::ThreadNotReached => "=> Failed to go to the 签到页面."@,
        }
    }
}

impl RunErrorView {
    /// The message that the error carries.
    pub open spec fn message_text(self) -> Seq<char> {
        match self {
            RunErrorView::DriverStart(detail) => "Failed to start chromedriver: "@ + detail,
            RunErrorView::Protocol(detail) => detail,
            RunErrorView::Gate(gate) => gate.message_text(),
            RunErrorView::Teardown(detail) => detail,
        }
    }

    /// The line printed when the error ends the workflow.
    pub open spec fn line_text(self) -> Seq<char> {
        match self {
            RunErrorView::Gate(gate) => gate.line_text(),
            _ => "=> "@ + self.message_text(),
        }
    }
}

impl RunError {
    /// The message that the error carries.
    pub fn message(&self) -> (m: String)
        ensures
            m@ == self@.message_text(),
    {
        match self {
            RunError::DriverStart(detail) => {
                let mut m = String::from_str("Failed to start chromedriver: ");
                m.append(detail.as_str());
                m
            },
            RunError::Protocol(detail) => detail.clone(),
            RunError::Gate(GateFailure::LoginRejected) => String::from_str("Failed to login."),
            RunError::Gate(GateFailure::ForumNotReached) => String::from_str(
                "Failed to go to the forum page.",
            ),
            RunError::Gate(GateFailure::ThreadNotReached) => String::from_str(
                "Failed to go to the target post.",
            ),
            RunError::Teardown(detail) => detail.clone(),
        }
    }

    /// The line printed when the error ends the workflow.
    pub fn line(&self) -> (l: String)
        ensures
            l@ == self@.line_text(),
    {
        match self {
            RunError::Gate(GateFailure::LoginRejected) => String::from_str("=> Failed to login."),
            RunError::Gate(GateFailure::ForumNotReached) => String::from_str(
                "=> Failed to go to the forum page.",
            ),
            RunError::Gate(GateFailure::ThreadNotReached) => String::from_str(
                "=> Failed to go to the 签到页面.",
            ),
            _ => {
                let mut l = String::from_str("=> ");
                let message = self.message();
                l.append(message.as_str());
                l
            },
        }
    }
}

/// What the caller reports after carrying out an action.
#[derive(Debug)]
pub enum Outcome {
    /// The action went through and produced nothing to read.
    Done,
    /// The action went through and produced this text.
    Text(String),
    /// The action failed, with this description.
    Failed(String),
}

/// The mathematical content of [`Outcome`].
pub ghost enum OutcomeView {
    Done,
    Text(Seq<char>),
    Failed(Seq<char>),
}

impl View for Outcome {
    type V = OutcomeView;

    open spec fn view(&self) -> OutcomeView {
        match self {
            Outcome::Done => OutcomeView::Done,
            Outcome::Text(text) => OutcomeView::Text(text@),
            Outcome::Failed(detail) => OutcomeView::Failed(detail@),
        }
    }
}

impl OutcomeView {
    /// The text that came back; empty where none did.
    pub open spec fn text(self) -> Seq<char> {
        match self {
            OutcomeView::Text(text) => text,
            _ => Seq::empty(),
        }
    }

    /// The description of the failure; empty where there was none.
    pub open spec fn detail(self) -> Seq<char> {
        match self {
            OutcomeView::Failed(detail) => detail,
            _ => Seq::empty(),
        }
    }
}

} // verus!
