//! What holds of every run: progress, fail-fast behaviour, custody of the
//! driver process and the browser session, and the treatment of readings.

use vstd::prelude::*;
use crate::config::{fault_of, ConfigError, RawSettingsView, RunConfigView};
use crate::controller::{aborts_on_failure, first_error, initial, step, ControllerView};
use crate::locator::CalendarDate;
use crate::outcome::{GateFailure, OutcomeView, RunErrorView};
use crate::plan::{Action, Element, Entry, Notice, Page, Phase};
use crate::site::{forum_url, login_url};
use crate::decimal::{decimal, digit_char, digit_value, digits_value, is_digit, parsed_number};
use crate::stat::{unit_suffix, StatView};
use crate::gate::thread_marker;
use crate::text::{contains_text, ends_with, lemma_trim_end_is_prefix, trim_end};

verus! {

/// The state after a sequence of steps, one outcome for each.
pub open spec fn run(s: ControllerView, outcomes: Seq<OutcomeView>) -> ControllerView
    decreases outcomes.len(),
{
    if outcomes.len() == 0 {
        s
    } else {
        run(step(s, outcomes.first()), outcomes.drop_first())
    }
}

/// How many times `action` was carried out along a sequence of steps.
pub open spec fn times_due(s: ControllerView, outcomes: Seq<OutcomeView>, action: Action) -> nat
    decreases outcomes.len(),
{
    if outcomes.len() == 0 {
        0
    } else {
        let here: nat = if s.phase.action_of() == action {
            1
        } else {
            0
        };
        here + times_due(step(s, outcomes.first()), outcomes.drop_first(), action)
    }
}

/// Whether the workflow proper is over in `phase`: only announcements and
/// teardown are left.
pub open spec fn past_workflow(phase: Phase) -> bool {
    match phase {
        Phase::AnnounceFailure
        | Phase::QuitSession
        | Phase::AnnounceSessionFailure
        | Phase::KillDriver
        | Phase::AnnounceKilled
        | Phase::AnnounceFarewell
        | Phase::AnnounceKillFailed
        | Phase::AnnounceSpawnFailure
        | Phase::Finished => true,
        _ => false,
    }
}

/// Whether `action` is one of those left once the workflow proper is over.
pub open spec fn winds_down(action: Action) -> bool {
    match action {
        Action::Report(_) | Action::QuitSession | Action::KillDriver | Action::Finish => true,
        _ => false,
    }
}

/// Whether a driver process is running in `phase` and has not yet been told
/// to die.
pub open spec fn holds_driver(phase: Phase) -> bool {
    match phase {
        Phase::SpawnDriver
        | Phase::AnnounceSpawnFailure
        | Phase::AnnounceKilled
        | Phase::AnnounceFarewell
        | Phase::AnnounceKillFailed
        | Phase::Finished => false,
        _ => true,
    }
}

/// Whether a browser session is open in `phase` and has not yet been told
/// to end.
pub open spec fn holds_session(phase: Phase) -> bool {
    match phase {
        Phase::SpawnDriver
        | Phase::OpenSession
        | Phase::AnnounceSessionFailure
        | Phase::KillDriver
        | Phase::AnnounceSpawnFailure
        | Phase::AnnounceKilled
        | Phase::AnnounceFarewell
        | Phase::AnnounceKillFailed
        | Phase::Finished => false,
        _ => true,
    }
}

/// Whether `phase` belongs to the taking of a reading from the profile page.
pub open spec fn reads_profile(phase: Phase) -> bool {
    match phase {
        Phase::BeforeVisit
        | Phase::BeforeSettle
        | Phase::BeforeProbe
        | Phase::BeforeFind
        | Phase::BeforeRead
        | Phase::BeforeParse
        | Phase::AfterVisit
        | Phase::AfterSettle
        | Phase::AfterProbe
        | Phase::AfterFind
        | Phase::AfterRead
        | Phase::AfterParse => true,
        _ => false,
    }
}

/// What holds of every state that a run passes through: an error is held
/// exactly from the moment the workflow is given up or teardown fails, a
/// reading is taken only where a profile address is configured, and without
/// one both readings are absent.
pub open spec fn coherent(s: ControllerView) -> bool {
    &&& !past_workflow(s.phase) ==> s.error is None && s.kill_fault is None
    &&& (s.phase == Phase::AnnounceFailure || s.phase == Phase::AnnounceSessionFailure || s.phase
        == Phase::AnnounceSpawnFailure) ==> s.error is Some
    &&& s.phase == Phase::AnnounceKillFailed ==> s.error is Some && s.kill_fault is Some
    &&& reads_profile(s.phase) ==> s.config.profile_url is Some
    &&& s.config.profile_url is None ==> s.before == StatView::Absent && s.after
        == StatView::Absent
}

/// A run starts in a coherent state, and every step keeps it coherent.
pub proof fn law_coherence_is_kept(s: ControllerView, o: OutcomeView)
    requires
        coherent(s),
    ensures
        coherent(initial(s.config, s.date)),
        coherent(step(s, o)),
        step(s, o).config == s.config,
        step(s, o).date == s.date,
{
}

/// Coherence holds all along a run.
pub proof fn law_runs_stay_coherent(s: ControllerView, outcomes: Seq<OutcomeView>)
    requires
        coherent(s),
    ensures
        coherent(run(s, outcomes)),
        run(s, outcomes).config == s.config,
        run(s, outcomes).date == s.date,
    decreases outcomes.len(),
{
    if outcomes.len() > 0 {
        law_coherence_is_kept(s, outcomes.first());
        law_runs_stay_coherent(step(s, outcomes.first()), outcomes.drop_first());
    }
}

/// Every step of an unfinished run brings it strictly closer to its end, and
/// a finished run stays as it is.
pub proof fn law_progress(s: ControllerView, o: OutcomeView)
    ensures
        s.phase != Phase::Finished ==> step(s, o).phase.steps_left() < s.phase.steps_left(),
        s.phase == Phase::Finished ==> step(s, o) == s,
        s.phase.steps_left() == 0 <==> s.phase == Phase::Finished,
{
}

/// A run is over after as many steps as its phase has left, whatever the
/// outcomes were: no run goes on for ever, and none skips its end.
pub proof fn law_every_run_finishes(s: ControllerView, outcomes: Seq<OutcomeView>)
    requires
        outcomes.len() >= s.phase.steps_left(),
    ensures
        run(s, outcomes).phase == Phase::Finished,
    decreases outcomes.len(),
{
    law_progress(s, OutcomeView::Done);
    if outcomes.len() > 0 {
        law_progress(s, outcomes.first());
        law_every_run_finishes(step(s, outcomes.first()), outcomes.drop_first());
    }
}

/// Steps taken one after the other add up.
pub proof fn lemma_run_in_two_parts(
    s: ControllerView,
    first: Seq<OutcomeView>,
    second: Seq<OutcomeView>,
    action: Action,
)
    ensures
        run(s, first + second) == run(run(s, first), second),
        times_due(s, first + second, action) == times_due(s, first, action) + times_due(
            run(s, first),
            second,
            action,
        ),
    decreases first.len(),
{
    if first.len() == 0 {
        assert(first + second == second);
    } else {
        assert((first + second).first() == first.first());
        assert((first + second).drop_first() == first.drop_first() + second);
        lemma_run_in_two_parts(step(s, first.first()), first.drop_first(), second, action);
    }
}

/// The phases of a run only ever come closer to the end.
pub proof fn lemma_steps_left_never_grows(s: ControllerView, outcomes: Seq<OutcomeView>)
    ensures
        run(s, outcomes).phase.steps_left() <= s.phase.steps_left(),
    decreases outcomes.len(),
{
    if outcomes.len() > 0 {
        law_progress(s, outcomes.first());
        lemma_steps_left_never_grows(step(s, outcomes.first()), outcomes.drop_first());
    }
}

/// An action that is due in one phase only is carried out at most once, and
/// not at all once the run is closer to its end than that phase.
pub proof fn lemma_once_per_phase(
    s: ControllerView,
    outcomes: Seq<OutcomeView>,
    action: Action,
    phase: Phase,
)
    requires
        phase != Phase::Finished,
        forall|p: Phase| #[trigger] p.action_of() == action ==> p == phase,
    ensures
        times_due(s, outcomes, action) <= 1,
        s.phase.steps_left() < phase.steps_left() ==> times_due(s, outcomes, action) == 0,
    decreases outcomes.len(),
{
    if outcomes.len() > 0 {
        law_progress(s, outcomes.first());
        lemma_once_per_phase(step(s, outcomes.first()), outcomes.drop_first(), action, phase);
    }
}

/// On every path the driver process is killed at most once and the browser
/// session is ended at most once; neither is started or opened twice.
pub proof fn law_teardown_at_most_once(s: ControllerView, outcomes: Seq<OutcomeView>)
    ensures
        times_due(s, outcomes, Action::KillDriver) <= 1,
        times_due(s, outcomes, Action::QuitSession) <= 1,
        times_due(s, outcomes, Action::SpawnDriver) <= 1,
        times_due(s, outcomes, Action::OpenSession) <= 1,
{
    lemma_once_per_phase(s, outcomes, Action::KillDriver, Phase::KillDriver);
    lemma_once_per_phase(s, outcomes, Action::QuitSession, Phase::QuitSession);
    lemma_once_per_phase(s, outcomes, Action::SpawnDriver, Phase::SpawnDriver);
    lemma_once_per_phase(s, outcomes, Action::OpenSession, Phase::OpenSession);
}

/// Custody changes hands at three steps only: the driver is held from a
/// start that went through until the kill is attempted, the session from an
/// opening that went through until its end is attempted.
pub proof fn law_custody_step(s: ControllerView, o: OutcomeView)
    ensures
        holds_driver(step(s, o).phase) == if s.phase == Phase::SpawnDriver {
            !(o is Failed)
        } else {
            holds_driver(s.phase) && s.phase != Phase::KillDriver
        },
        holds_session(step(s, o).phase) == if s.phase == Phase::OpenSession {
            !(o is Failed)
        } else {
            holds_session(s.phase) && s.phase != Phase::QuitSession
        },
        !holds_driver(Phase::Finished),
        !holds_session(Phase::Finished),
        holds_session(s.phase) ==> holds_driver(s.phase),
{
}

/// Nothing leaks: a run that has finished attempted the kill exactly once if
/// it held a driver process, and ended the session exactly once if it held
/// one; where it held neither, it attempted neither.
pub proof fn law_nothing_leaks(s: ControllerView, outcomes: Seq<OutcomeView>)
    requires
        s.phase != Phase::SpawnDriver,
        s.phase != Phase::OpenSession,
        run(s, outcomes).phase == Phase::Finished,
    ensures
        times_due(s, outcomes, Action::KillDriver) == if holds_driver(s.phase) {
            1nat
        } else {
            0nat
        },
        times_due(s, outcomes, Action::QuitSession) == if holds_session(s.phase) {
            1nat
        } else {
            0nat
        },
    decreases outcomes.len(),
{
    if outcomes.len() > 0 {
        law_custody_step(s, outcomes.first());
        law_progress(s, outcomes.first());
        law_nothing_leaks(step(s, outcomes.first()), outcomes.drop_first());
    }
}

/// From the very start: a finished run killed the driver exactly once if the
/// driver was started, and ended the session exactly once if the session was
/// opened; a start that failed leaves nothing to kill.
pub proof fn law_whole_run_releases_what_it_took(
    config: RunConfigView,
    date: CalendarDate,
    outcomes: Seq<OutcomeView>,
)
    requires
        run(initial(config, date), outcomes).phase == Phase::Finished,
    ensures
        outcomes.len() >= 2,
        times_due(initial(config, date), outcomes, Action::KillDriver) == if outcomes[0] is Failed {
            0nat
        } else {
            1nat
        },
        times_due(initial(config, date), outcomes, Action::QuitSession) == if outcomes[0] is Failed
            || outcomes[1] is Failed {
            0nat
        } else {
            1nat
        },
{
    reveal_with_fuel(run, 3);
    reveal_with_fuel(times_due, 3);
    let s0 = initial(config, date);
    assert(outcomes.len() > 0);
    let s1 = step(s0, outcomes[0]);
    let rest1 = outcomes.drop_first();
    assert(rest1.len() > 0);
    if outcomes[0] is Failed {
        law_nothing_leaks(s1, rest1);
    } else {
        let s2 = step(s1, rest1[0]);
        let rest2 = rest1.drop_first();
        assert(rest1[0] == outcomes[1]);
        law_nothing_leaks(s2, rest2);
    }
}

/// Fail fast: a failed call to the driver or the browser gives the workflow
/// up at once. The error is recorded and only announcements and teardown are
/// left.
pub proof fn law_failure_is_fatal(s: ControllerView, o: OutcomeView)
    requires
        coherent(s),
        s.phase != Phase::Finished,
        o is Failed,
        aborts_on_failure(s.phase),
    ensures
        past_workflow(step(s, o).phase),
        step(s, o).error == Some(
            if s.phase == Phase::SpawnDriver {
                RunErrorView::DriverStart(o.detail())
            } else {
                RunErrorView::Protocol(o.detail())
            },
        ),
{
}

/// Once the workflow proper is over it stays over, and the error that ended
/// it is never replaced, not even by a teardown that fails in turn.
pub proof fn law_first_error_stands(s: ControllerView, o: OutcomeView)
    ensures
        past_workflow(s.phase) ==> past_workflow(step(s, o).phase),
        past_workflow(s.phase) ==> winds_down(s.phase.action_of()),
        s.error is Some ==> step(s, o).error == s.error,
{
}

/// After the workflow proper is over nothing but announcements and teardown
/// is carried out, and a held error stands to the end.
pub proof fn law_wind_down_touches_nothing(
    s: ControllerView,
    outcomes: Seq<OutcomeView>,
    action: Action,
)
    requires
        past_workflow(s.phase),
    ensures
        !winds_down(action) ==> times_due(s, outcomes, action) == 0,
        past_workflow(run(s, outcomes).phase),
        s.error is Some ==> run(s, outcomes).error == s.error,
    decreases outcomes.len(),
{
    if outcomes.len() > 0 {
        law_first_error_stands(s, outcomes.first());
        law_wind_down_touches_nothing(step(s, outcomes.first()), outcomes.drop_first(), action);
    }
}

/// A landing check passes on the exact address only: the first visit to the
/// login page asks for credentials exactly when the login address came back,
/// and the forum counts as reached exactly when the forum address came back.
/// The thread, whose address is not known beforehand, counts as reached
/// exactly when the address that came back holds the thread marker.
pub proof fn law_gates_compare_exactly(s: ControllerView, o: OutcomeView)
    requires
        coherent(s),
        !(o is Failed),
    ensures
        s.phase == Phase::LoginProbe ==> (step(s, o).phase == Phase::FindUsername <==> o.text()
            == login_url()),
        s.phase == Phase::LoginProbe ==> (step(s, o).phase == Phase::RecheckVisit <==> o.text()
            != login_url()),
        s.phase == Phase::RecheckProbe ==> (step(s, o).error == Some(
            RunErrorView::Gate(GateFailure::LoginRejected),
        ) <==> o.text() == login_url()),
        s.phase == Phase::ForumProbe ==> (step(s, o).phase == Phase::AnnounceToken <==> o.text()
            == forum_url()),
        s.phase == Phase::ForumProbe ==> (step(s, o).error == Some(
            RunErrorView::Gate(GateFailure::ForumNotReached),
        ) <==> o.text() != forum_url()),
        s.phase == Phase::ThreadProbe ==> (step(s, o).phase == Phase::AnnounceThread
            <==> contains_text(o.text(), thread_marker())),
        s.phase == Phase::ThreadProbe ==> (step(s, o).error == Some(
            RunErrorView::Gate(GateFailure::ThreadNotReached),
        ) <==> !contains_text(o.text(), thread_marker())),
{
}

/// When the login page comes back at the second check, the run fails with
/// the login gate's error and the forum is never visited: not before the
/// check, and not after it, whatever happens during teardown.
pub proof fn law_rejected_login_never_reaches_forum(
    config: RunConfigView,
    date: CalendarDate,
    before: Seq<OutcomeView>,
    o: OutcomeView,
    after: Seq<OutcomeView>,
)
    requires
        run(initial(config, date), before).phase == Phase::RecheckProbe,
        !(o is Failed),
        o.text() == login_url(),
    ensures
        times_due(
            initial(config, date),
            before + seq![o] + after,
            Action::Navigate(Page::Forum),
        ) == 0,
        run(initial(config, date), before + seq![o] + after).error == Some(
            RunErrorView::Gate(GateFailure::LoginRejected),
        ),
        past_workflow(run(initial(config, date), before + seq![o] + after).phase),
{
    let s0 = initial(config, date);
    let action = Action::Navigate(Page::Forum);
    let s = run(s0, before);
    law_coherence_is_kept(s0, o);
    law_runs_stay_coherent(s0, before);
    lemma_not_yet_due(s0, before, action, Phase::ForumVisit);
    lemma_run_in_two_parts(s0, before, seq![o] + after, action);
    lemma_run_in_two_parts(s, seq![o], after, action);
    assert(before + seq![o] + after == before + (seq![o] + after));
    let t = step(s, o);
    reveal_with_fuel(run, 2);
    reveal_with_fuel(times_due, 2);
    assert(seq![o].drop_first() == Seq::<OutcomeView>::empty());
    assert(run(s, seq![o]) == t);
    assert(times_due(s, seq![o], action) == 0);
    law_wind_down_touches_nothing(t, after, action);
}

/// When the day's thread cannot be found, the run fails with the lookup's
/// error and no reply is ever typed or submitted.
pub proof fn law_missing_thread_sends_no_reply(
    config: RunConfigView,
    date: CalendarDate,
    before: Seq<OutcomeView>,
    o: OutcomeView,
    after: Seq<OutcomeView>,
)
    requires
        run(initial(config, date), before).phase == Phase::FindThread,
        o is Failed,
    ensures
        times_due(
            initial(config, date),
            before + seq![o] + after,
            Action::SendKeys(Element::ReplyEditor, Entry::Reply),
        ) == 0,
        times_due(
            initial(config, date),
            before + seq![o] + after,
            Action::Click(Element::SubmitReply),
        ) == 0,
        run(initial(config, date), before + seq![o] + after).error == Some(
            RunErrorView::Protocol(o.detail()),
        ),
{
    let s0 = initial(config, date);
    let typing = Action::SendKeys(Element::ReplyEditor, Entry::Reply);
    let submitting = Action::Click(Element::SubmitReply);
    let s = run(s0, before);
    law_coherence_is_kept(s0, o);
    law_runs_stay_coherent(s0, before);
    lemma_not_yet_due(s0, before, typing, Phase::TypeReply);
    lemma_not_yet_due(s0, before, submitting, Phase::ClickSubmit);
    assert(before + seq![o] + after == before + (seq![o] + after));
    lemma_run_in_two_parts(s0, before, seq![o] + after, typing);
    lemma_run_in_two_parts(s0, before, seq![o] + after, submitting);
    lemma_run_in_two_parts(s, seq![o], after, typing);
    lemma_run_in_two_parts(s, seq![o], after, submitting);
    let t = step(s, o);
    reveal_with_fuel(run, 2);
    reveal_with_fuel(times_due, 2);
    assert(seq![o].drop_first() == Seq::<OutcomeView>::empty());
    assert(run(s, seq![o]) == t);
    assert(times_due(s, seq![o], typing) == 0);
    assert(times_due(s, seq![o], submitting) == 0);
    law_failure_is_fatal(s, o);
    law_wind_down_touches_nothing(t, after, typing);
    law_wind_down_touches_nothing(t, after, submitting);
}

/// An action that is due in one phase only has not been carried out while
/// the run has not yet passed that phase.
pub proof fn lemma_not_yet_due(
    s: ControllerView,
    outcomes: Seq<OutcomeView>,
    action: Action,
    phase: Phase,
)
    requires
        phase != Phase::Finished,
        forall|p: Phase| #[trigger] p.action_of() == action ==> p == phase,
        run(s, outcomes).phase.steps_left() >= phase.steps_left(),
    ensures
        times_due(s, outcomes, action) == 0,
    decreases outcomes.len(),
{
    if outcomes.len() > 0 {
        let next = step(s, outcomes.first());
        law_progress(s, outcomes.first());
        lemma_steps_left_never_grows(next, outcomes.drop_first());
        lemma_not_yet_due(next, outcomes.drop_first(), action, phase);
    }
}

/// Without a profile address no reading is attempted: the profile page is
/// never visited and both readings are absent all along.
pub proof fn law_unset_profile_reads_nothing(
    config: RunConfigView,
    date: CalendarDate,
    outcomes: Seq<OutcomeView>,
)
    requires
        config.profile_url is None,
    ensures
        times_due(initial(config, date), outcomes, Action::Navigate(Page::Profile)) == 0,
        times_due(initial(config, date), outcomes, Action::ParseReading) == 0,
        run(initial(config, date), outcomes).before == StatView::Absent,
        run(initial(config, date), outcomes).after == StatView::Absent,
{
    let s0 = initial(config, date);
    law_coherence_is_kept(s0, OutcomeView::Done);
    law_runs_stay_coherent(s0, outcomes);
    lemma_no_reading_without_profile(s0, outcomes, Action::Navigate(Page::Profile));
    lemma_no_reading_without_profile(s0, outcomes, Action::ParseReading);
}

/// In a coherent run without a profile address, no action of a reading is
/// carried out.
pub proof fn lemma_no_reading_without_profile(
    s: ControllerView,
    outcomes: Seq<OutcomeView>,
    action: Action,
)
    requires
        coherent(s),
        s.config.profile_url is None,
        action == Action::Navigate(Page::Profile) || action == Action::ParseReading,
    ensures
        times_due(s, outcomes, action) == 0,
    decreases outcomes.len(),
{
    if outcomes.len() > 0 {
        law_coherence_is_kept(s, outcomes.first());
        lemma_no_reading_without_profile(step(s, outcomes.first()), outcomes.drop_first(), action);
    }
}

/// A figure that is not a number gives an absent reading and never ends the
/// run: the workflow goes on to report and carries no error for it.
pub proof fn law_unreadable_figure_is_absent(s: ControllerView, o: OutcomeView)
    requires
        coherent(s),
        !(o is Text),
    ensures
        s.phase == Phase::BeforeParse ==> step(s, o).before == StatView::Absent && step(
            s,
            o,
        ).phase == Phase::BeforeReport,
        s.phase == Phase::AfterParse ==> step(s, o).after == StatView::Absent && step(s, o).phase
            == Phase::AfterReport,
        s.phase == Phase::BeforeParse || s.phase == Phase::AfterParse ==> step(s, o).error
            is None,
{
}

/// Where the profile page lands is not checked: whatever address comes back
/// after that visit, the reading goes on and no error is recorded.
pub proof fn law_profile_landing_is_not_checked(s: ControllerView, o: OutcomeView)
    requires
        coherent(s),
        !(o is Failed),
    ensures
        s.phase == Phase::BeforeProbe ==> step(s, o) == (ControllerView {
            phase: Phase::BeforeFind,
            ..s
        }),
        s.phase == Phase::AfterProbe ==> step(s, o) == (ControllerView {
            phase: Phase::AfterFind,
            ..s
        }),
{
}

/// The figure left after the unit is taken off is the start of the text that
/// was read, and does not itself end in the unit.
pub proof fn law_stripped_figure_is_a_prefix(text: Seq<char>)
    ensures
        trim_end(text, unit_suffix()).len() <= text.len(),
        trim_end(text, unit_suffix()) == text.take(trim_end(text, unit_suffix()).len() as int),
        !ends_with(trim_end(text, unit_suffix()), unit_suffix()),
{
    reveal_strlit(" J");
    lemma_trim_end_is_prefix(text, unit_suffix());
}

/// An error that is held stands to the end of the run.
pub proof fn law_error_stands_to_the_end(s: ControllerView, outcomes: Seq<OutcomeView>)
    requires
        s.error is Some,
    ensures
        run(s, outcomes).error == s.error,
    decreases outcomes.len(),
{
    if outcomes.len() > 0 {
        law_first_error_stands(s, outcomes.first());
        law_error_stands_to_the_end(step(s, outcomes.first()), outcomes.drop_first());
    }
}

/// In a run that ends without an error, an action of the main line that has
/// not been passed yet is carried out exactly once.
pub proof fn lemma_clean_run_passes(
    s: ControllerView,
    outcomes: Seq<OutcomeView>,
    action: Action,
    phase: Phase,
)
    requires
        coherent(s),
        phase == Phase::BeforeReport || phase == Phase::TypeReply || phase == Phase::ClickSubmit
            || phase == Phase::AfterReport,
        action == phase.action_of(),
        run(s, outcomes).phase == Phase::Finished,
        run(s, outcomes).error is None,
    ensures
        times_due(s, outcomes, action) == if s.phase.steps_left() >= phase.steps_left() {
            1nat
        } else {
            0nat
        },
    decreases outcomes.len(),
{
    if outcomes.len() > 0 {
        let next = step(s, outcomes.first());
        law_coherence_is_kept(s, outcomes.first());
        law_progress(s, outcomes.first());
        if next.error is Some {
            law_error_stands_to_the_end(next, outcomes.drop_first());
        }
        lemma_clean_run_passes(next, outcomes.drop_first(), action, phase);
    }
}

/// A run that ends without an error has reported the reading taken before,
/// typed the reply once, submitted it once and reported the change of the
/// reading.
pub proof fn law_clean_run_checks_in_once(
    config: RunConfigView,
    date: CalendarDate,
    outcomes: Seq<OutcomeView>,
)
    requires
        run(initial(config, date), outcomes).phase == Phase::Finished,
        run(initial(config, date), outcomes).error is None,
    ensures
        times_due(initial(config, date), outcomes, Action::Report(Notice::StatBefore)) == 1,
        times_due(
            initial(config, date),
            outcomes,
            Action::SendKeys(Element::ReplyEditor, Entry::Reply),
        ) == 1,
        times_due(initial(config, date), outcomes, Action::Click(Element::SubmitReply)) == 1,
        times_due(initial(config, date), outcomes, Action::Report(Notice::StatAfter)) == 1,
{
    let s0 = initial(config, date);
    law_coherence_is_kept(s0, OutcomeView::Done);
    lemma_clean_run_passes(s0, outcomes, Action::Report(Notice::StatBefore), Phase::BeforeReport);
    lemma_clean_run_passes(
        s0,
        outcomes,
        Action::SendKeys(Element::ReplyEditor, Entry::Reply),
        Phase::TypeReply,
    );
    lemma_clean_run_passes(s0, outcomes, Action::Click(Element::SubmitReply), Phase::ClickSubmit);
    lemma_clean_run_passes(s0, outcomes, Action::Report(Notice::StatAfter), Phase::AfterReport);
}

/// The digit characters stand for the values zero to nine.
pub proof fn lemma_digit_reads_back(d: nat)
    requires
        d < 10,
    ensures
        is_digit(digit_char(d)),
        digit_value(digit_char(d)) == d,
{
}

/// What is written in decimal reads back as the same number: the notation
/// holds digits only, at least one, and denotes the number it was made from.
pub proof fn law_decimal_reads_back(n: nat, max: nat)
    ensures
        decimal(n).len() > 0,
        forall|i: int| 0 <= i < decimal(n).len() ==> is_digit(#[trigger] decimal(n)[i]),
        digits_value(decimal(n)) == n,
        n <= max ==> parsed_number(decimal(n), max) == Some(n),
    decreases n,
{
    if n < 10 {
        lemma_digit_reads_back(n);
        assert(decimal(n).drop_last() =~= Seq::<char>::empty());
        assert(digits_value(decimal(n).drop_last()) == 0);
    } else {
        law_decimal_reads_back(n / 10, max);
        lemma_digit_reads_back(n % 10);
        assert(decimal(n).drop_last() =~= decimal(n / 10));
        assert forall|i: int| 0 <= i < decimal(n).len() implies is_digit(
            #[trigger] decimal(n)[i],
        ) by {
            if i < decimal(n / 10).len() {
                assert(decimal(n)[i] == decimal(n / 10)[i]);
            }
        }
    }
    assert(decimal(n)[0] != '+');
}

/// Settings that lack a required value are never a configuration, whatever
/// the other values are; the profile address is no required value.
pub proof fn law_missing_setting_is_fault(raw: RawSettingsView)
    ensures
        raw.driver_type is None || raw.driver_path is None || raw.driver_port is None
            || raw.username is None || raw.password is None || raw.wait_secs is None ==> fault_of(
            raw,
        ) is Some,
        fault_of(RawSettingsView { profile_url: None, ..raw }) == fault_of(raw),
{
}

} // verus!
