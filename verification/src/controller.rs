//! The workflow controller: it names the next action, takes the outcome of
//! that action and decides where the run goes from there. The caller carries
//! the actions out; the controller never touches the browser itself.

use vstd::prelude::*;
use crate::config::{RunConfig, RunConfigView};
use crate::gate::{landed, reached_thread, thread_marker};
use crate::locator::{today, CalendarDate};
use crate::outcome::{error_view, GateFailure, Outcome, OutcomeView, RunError, RunErrorView};
use crate::plan::{Action, Phase};
use crate::site::{forum_address, forum_url, login_address, login_url};
use crate::stat::{strip_unit, unit_suffix, StatValue, StatView};
use crate::text::{contains_text, text_of, trim_end};

verus! {

/// The state of one run.
#[derive(Debug)]
pub struct Controller {
    pub config: RunConfig,
    pub date: CalendarDate,
    pub phase: Phase,
    pub before: StatValue,
    pub after: StatValue,
    pub reading: String,
    pub error: Option<RunError>,
    pub kill_fault: Option<String>,
}

/// The mathematical content of [`Controller`].
pub ghost struct ControllerView {
    pub config: RunConfigView,
    pub date: CalendarDate,
    pub phase: Phase,
    /// The reading taken before the check-in.
    pub before: StatView,
    /// The reading taken after the check-in.
    pub after: StatView,
    /// The figure read from the page that is still to be judged.
    pub reading: Seq<char>,
    /// The error that the run ends with, once there is one.
    pub error: Option<RunErrorView>,
    /// Why the driver process could not be killed, if it could not.
    pub kill_fault: Option<Seq<char>>,
}

impl View for Controller {
    type V = ControllerView;

    open spec fn view(&self) -> ControllerView {
        ControllerView {
            config: self.config@,
            date: self.date,
            phase: self.phase,
            before: self.before@,
            after: self.after@,
            reading: self.reading@,
            error: error_view(self.error),
            kill_fault: text_of(self.kill_fault),
        }
    }
}

/// The state in which a run starts.
pub open spec fn initial(config: RunConfigView, date: CalendarDate) -> ControllerView {
    ControllerView {
        config,
        date,
        phase: Phase::SpawnDriver,
        before: StatView::Absent,
        after: StatView::Absent,
        reading: Seq::empty(),
        error: None,
        kill_fault: None,
    }
}

/// Whether a failed action in `phase` ends the workflow. It does for every
/// call to the driver or the browser; printing, pausing, judging a figure and
/// the two teardown calls go on regardless.
pub open spec fn aborts_on_failure(phase: Phase) -> bool {
    match phase.action_of() {
        Action::Report(_) | Action::Pause(_) | Action::ParseReading | Action::QuitSession
        | Action::KillDriver | Action::Finish => false,
        _ => true,
    }
}

/// Where the run goes when the workflow is given up in `phase`: to the
/// announcement that is followed by as much teardown as there is to do.
pub open spec fn failure_phase(phase: Phase) -> Phase {
    match phase {
        Phase::SpawnDriver => Phase::AnnounceSpawnFailure,
        Phase::OpenSession => Phase::AnnounceSessionFailure,
        _ => Phase::AnnounceFailure,
    }
}

/// The error that a failed action in `phase` stands for.
pub open spec fn failure_error(phase: Phase, detail: Seq<char>) -> RunErrorView {
    match phase {
        Phase::SpawnDriver => RunErrorView::DriverStart(detail),
        _ => RunErrorView::Protocol(detail),
    }
}

/// The error that stands after `new` is met: an earlier one is never replaced.
pub open spec fn first_error(held: Option<RunErrorView>, new: RunErrorView) -> Option<
    RunErrorView,
> {
    if held is Some {
        held
    } else {
        Some(new)
    }
}

/// The state after the workflow is given up with `error`.
pub open spec fn abort(s: ControllerView, error: RunErrorView) -> ControllerView {
    ControllerView { phase: failure_phase(s.phase), error: first_error(s.error, error), ..s }
}

/// The state after moving to `phase` with nothing else changed.
pub open spec fn goto(s: ControllerView, phase: Phase) -> ControllerView {
    ControllerView { phase, ..s }
}

/// The reading that the judgement of a figure yields: measured when the
/// figure came back as a number, absent otherwise.
pub open spec fn reading_of(o: OutcomeView) -> StatView {
    match o {
        OutcomeView::Text(figure) => StatView::Measured(figure),
        _ => StatView::Absent,
    }
}

/// The state after the action due in `s` ended with `o`.
pub open spec fn step(s: ControllerView, o: OutcomeView) -> ControllerView {
    if s.phase == Phase::Finished {
        s
    } else if o is Failed && aborts_on_failure(s.phase) {
        abort(s, failure_error(s.phase, o.detail()))
    } else {
        match s.phase {
            Phase::LoginProbe => if o.text() == login_url() {
                goto(s, Phase::FindUsername)
            } else {
                goto(s, Phase::RecheckVisit)
            },
            Phase::RecheckProbe => if o.text() == login_url() {
                abort(s, RunErrorView::Gate(GateFailure::LoginRejected))
            } else if s.config.profile_url is Some {
                goto(s, Phase::BeforeVisit)
            } else {
                ControllerView { phase: Phase::BeforeReport, before: StatView::Absent, ..s }
            },
            Phase::BeforeRead => ControllerView {
                phase: Phase::BeforeParse,
                reading: trim_end(o.text(), unit_suffix()),
                ..s
            },
            Phase::BeforeParse => ControllerView {
                phase: Phase::BeforeReport,
                before: reading_of(o),
                ..s
            },
            Phase::ForumProbe => if o.text() == forum_url() {
                goto(s, Phase::AnnounceToken)
            } else {
                abort(s, RunErrorView::Gate(GateFailure::ForumNotReached))
            },
            Phase::ThreadProbe => if contains_text(o.text(), thread_marker()) {
                goto(s, Phase::AnnounceThread)
            } else {
                abort(s, RunErrorView::Gate(GateFailure::ThreadNotReached))
            },
            Phase::AnnounceCheckedIn => if s.config.profile_url is Some {
                goto(s, Phase::AfterVisit)
            } else {
                ControllerView { phase: Phase::AfterReport, after: StatView::Absent, ..s }
            },
            Phase::AfterRead => ControllerView {
                phase: Phase::AfterParse,
                reading: trim_end(o.text(), unit_suffix()),
                ..s
            },
            Phase::AfterParse => ControllerView {
                phase: Phase::AfterReport,
                after: reading_of(o),
                ..s
            },
            Phase::QuitSession => if o is Failed {
                ControllerView {
                    phase: Phase::KillDriver,
                    error: first_error(s.error, RunErrorView::Protocol(o.detail())),
                    ..s
                }
            } else {
                goto(s, Phase::KillDriver)
            },
            Phase::KillDriver => if o is Failed {
                ControllerView {
                    phase: Phase::AnnounceKillFailed,
                    error: first_error(s.error, RunErrorView::Teardown(o.detail())),
                    kill_fault: Some(o.detail()),
                    ..s
                }
            } else {
                goto(s, Phase::AnnounceKilled)
            },
            _ => goto(s, s.phase.successor()),
        }
    }
}

impl Controller {
    /// A controller at the start of a run for `date`.
    pub fn new(config: RunConfig, date: CalendarDate) -> (c: Controller)
        ensures
            c@ == initial(config@, date),
    {
        Controller {
            config,
            date,
            phase: Phase::SpawnDriver,
            before: StatValue::Absent,
            after: StatValue::Absent,
            reading: String::new(),
            error: None,
            kill_fault: None,
        }
    }

    /// A controller at the start of a run for the current local date.
    pub fn for_today(config: RunConfig) -> (c: Controller)
        ensures
            c.date.in_calendar_range(),
            c@ == initial(config@, c.date),
    {
        let date = today();
        Controller::new(config, date)
    }

    /// The action that is due.
    pub fn action(&self) -> (a: Action)
        ensures
            a == self@.phase.action_of(),
    {
        self.phase.action()
    }

    /// Whether the run is over.
    pub fn is_finished(&self) -> (yes: bool)
        ensures
            yes == (self@.phase == Phase::Finished),
    {
        self.phase == Phase::Finished
    }

    fn keep_first(&mut self, error: RunError)
        ensures
            final(self)@ == (ControllerView {
                error: first_error(old(self)@.error, error@),
                ..old(self)@
            }),
    {
        if self.error.is_none() {
            self.error = Some(error);
        }
    }

    fn give_up(&mut self, error: RunError)
        ensures
            final(self)@ == abort(old(self)@, error@),
    {
        self.keep_first(error);
        self.phase = match self.phase {
            Phase::SpawnDriver => Phase::AnnounceSpawnFailure,
            Phase::OpenSession => Phase::AnnounceSessionFailure,
            _ => Phase::AnnounceFailure,
        };
    }

    fn fails_fast(&self) -> (yes: bool)
        ensures
            yes == aborts_on_failure(self@.phase),
    {
        match self.phase.action() {
            Action::Report(_) => false,
            Action::Pause(_) => false,
            Action::ParseReading => false,
            Action::QuitSession => false,
            Action::KillDriver => false,
            Action::Finish => false,
            _ => true,
        }
    }

    /// Takes the outcome of the action that was due and moves on.
    pub fn advance(&mut self, outcome: Outcome)
        ensures
            final(self)@ == step(old(self)@, outcome@),
    {
        if self.phase == Phase::Finished {
            return ;
        }
        match outcome {
            Outcome::Failed(detail) => {
                if self.fails_fast() {
                    let error = match self.phase {
                        Phase::SpawnDriver => RunError::DriverStart(detail),
                        _ => RunError::Protocol(detail),
                    };
                    self.give_up(error);
                } else {
                    self.carry_on_after_failure(detail);
                }
            },
            Outcome::Text(text) => {
                self.carry_on(Some(text));
            },
            Outcome::Done => {
                self.carry_on(None);
            },
        }
    }

    fn carry_on_after_failure(&mut self, detail: String)
        requires
            old(self)@.phase != Phase::Finished,
            !aborts_on_failure(old(self)@.phase),
        ensures
            final(self)@ == step(old(self)@, OutcomeView::Failed(detail@)),
    {
        match self.phase {
            Phase::BeforeParse => {
                self.before = StatValue::Absent;
                self.phase = Phase::BeforeReport;
            },
            Phase::AfterParse => {
                self.after = StatValue::Absent;
                self.phase = Phase::AfterReport;
            },
            Phase::AnnounceCheckedIn => {
                self.enter_after_reading();
            },
            Phase::QuitSession => {
                self.keep_first(RunError::Protocol(detail));
                self.phase = Phase::KillDriver;
            },
            Phase::KillDriver => {
                self.kill_fault = Some(detail.clone());
                self.keep_first(RunError::Teardown(detail));
                self.phase = Phase::AnnounceKillFailed;
            },
            _ => {
                self.phase = self.phase.next();
            },
        }
    }

    fn enter_after_reading(&mut self)
        requires
            old(self)@.phase == Phase::AnnounceCheckedIn,
        ensures
            final(self)@ == step(old(self)@, OutcomeView::Done),
    {
        if self.config.profile_url.is_some() {
            self.phase = Phase::AfterVisit;
        } else {
            self.after = StatValue::Absent;
            self.phase = Phase::AfterReport;
        }
    }

    fn carry_on(&mut self, text: Option<String>)
        requires
            old(self)@.phase != Phase::Finished,
        ensures
            final(self)@ == step(
                old(self)@,
                match text {
                    Some(t) => OutcomeView::Text(t@),
                    None => OutcomeView::Done,
                },
            ),
    {
        let came_back = text.is_some();
        let text = match text {
            Some(t) => t,
            None => String::new(),
        };
        match self.phase {
            Phase::LoginProbe => {
                if landed(login_address(), text.as_str()) {
                    self.phase = Phase::FindUsername;
                } else {
                    self.phase = Phase::RecheckVisit;
                }
            },
            Phase::RecheckProbe => {
                if landed(login_address(), text.as_str()) {
                    self.give_up(RunError::Gate(GateFailure::LoginRejected));
                } else if self.config.profile_url.is_some() {
                    self.phase = Phase::BeforeVisit;
                } else {
                    self.before = StatValue::Absent;
                    self.phase = Phase::BeforeReport;
                }
            },
            Phase::BeforeRead => {
                self.reading = strip_unit(text.as_str());
                self.phase = Phase::BeforeParse;
            },
            Phase::BeforeParse => {
                self.before = if came_back {
                    StatValue::Measured(text)
                } else {
                    StatValue::Absent
                };
                self.phase = Phase::BeforeReport;
            },
            Phase::ForumProbe => {
                if landed(forum_address(), text.as_str()) {
                    self.phase = Phase::AnnounceToken;
                } else {
                    self.give_up(RunError::Gate(GateFailure::ForumNotReached));
                }
            },
            Phase::ThreadProbe => {
                if reached_thread(text.as_str()) {
                    self.phase = Phase::AnnounceThread;
                } else {
                    self.give_up(RunError::Gate(GateFailure::ThreadNotReached));
                }
            },
            Phase::AnnounceCheckedIn => {
                if self.config.profile_url.is_some() {
                    self.phase = Phase::AfterVisit;
                } else {
                    self.after = StatValue::Absent;
                    self.phase = Phase::AfterReport;
                }
            },
            Phase::AfterRead => {
                self.reading = strip_unit(text.as_str());
                self.phase = Phase::AfterParse;
            },
            Phase::AfterParse => {
                self.after = if came_back {
                    StatValue::Measured(text)
                } else {
                    StatValue::Absent
                };
                self.phase = Phase::AfterReport;
            },
            Phase::QuitSession => {
                self.phase = Phase::KillDriver;
            },
            Phase::KillDriver => {
                self.phase = Phase::AnnounceKilled;
            },
            _ => {
                self.phase = self.phase.next();
            },
        }
    }
}

} // verus!
