use sstm_checkin::config::RunConfig;
use sstm_checkin::controller::Controller;
use sstm_checkin::locator::CalendarDate;
use sstm_checkin::outcome::{GateFailure, Outcome, RunError};
use sstm_checkin::plan::{Action, Delay, Element, Entry, Notice, Page, Phase};
use sstm_checkin::stat::StatValue;

const HOME: &str = "https://sstm.moe/";
const PROFILE: &str = "https://sstm.moe/profile/1-alice/";

fn config(profile: bool) -> RunConfig {
    RunConfig {
        driver_path: "/usr/bin/chromedriver".to_string(),
        driver_port: 9515,
        username: "alice".to_string(),
        password: "s3cret".to_string(),
        wait_secs: 3,
        profile_url: if profile { Some(PROFILE.to_string()) } else { None },
    }
}

fn controller(profile: bool) -> Controller {
    Controller::new(config(profile), CalendarDate { year: 2024, month: 3, day: 7 })
}

struct Browser {
    url: String,
    signed_in: bool,
    accepts_login: bool,
    forum_redirects: bool,
    has_thread: bool,
    thread_leads_elsewhere: bool,
    figures: Vec<&'static str>,
    fail_on: Option<Action>,
    done: Vec<Action>,
    typed: Vec<(Element, String)>,
    pauses: Vec<u64>,
    lines: Vec<String>,
}

fn browser() -> Browser {
    Browser {
        url: String::new(),
        signed_in: true,
        accepts_login: true,
        forum_redirects: false,
        has_thread: true,
        thread_leads_elsewhere: false,
        figures: vec!["1234 J", "1239 J"],
        fail_on: None,
        done: Vec::new(),
        typed: Vec::new(),
        pauses: Vec::new(),
        lines: Vec::new(),
    }
}

fn perform(b: &mut Browser, c: &Controller, action: Action) -> Outcome {
    b.done.push(action);
    if b.fail_on == Some(action) {
        return Outcome::Failed(format!("cannot do {:?}", action));
    }
    match action {
        Action::Navigate(page) => {
            b.url = c.address(page).unwrap();
            if page == Page::Login && b.signed_in {
                b.url = HOME.to_string();
            }
            if page == Page::Forum && b.forum_redirects {
                b.url = HOME.to_string();
            }
            Outcome::Done
        }
        Action::ReadUrl => Outcome::Text(b.url.clone()),
        Action::Find(element) => {
            let _ = c.selector(element);
            if element == Element::TodayThread && !b.has_thread {
                Outcome::Failed("no such element".to_string())
            } else {
                Outcome::Done
            }
        }
        Action::SendKeys(element, entry) => {
            b.typed.push((element, c.entry(entry)));
            Outcome::Done
        }
        Action::Click(element) => {
            match element {
                Element::SignInButton => {
                    if b.accepts_login {
                        b.signed_in = true;
                        b.url = HOME.to_string();
                    }
                }
                Element::TodayThread => {
                    if !b.thread_leads_elsewhere {
                        b.url = "https://sstm.moe/topic/339866-checkin/".to_string();
                    }
                }
                _ => {}
            }
            Outcome::Done
        }
        Action::ReadText(_) => Outcome::Text(b.figures.remove(0).to_string()),
        Action::ParseReading => match c.pending_reading().parse::<f32>() {
            Ok(value) if value >= 0.0 => Outcome::Text(format!("{}", value)),
            _ => Outcome::Done,
        },
        Action::Pause(delay) => {
            b.pauses.push(c.pause_secs(delay));
            Outcome::Done
        }
        Action::Report(notice) => {
            b.lines.push(c.notice_line(notice));
            Outcome::Done
        }
        _ => Outcome::Done,
    }
}

fn drive(b: &mut Browser, c: &mut Controller) -> usize {
    let mut steps = 0;
    while !c.is_finished() {
        let action = c.action();
        let outcome = perform(b, c, action);
        c.advance(outcome);
        steps += 1;
        assert!(steps <= 57, "the run must end within its bound");
    }
    assert_eq!(c.action(), Action::Finish);
    steps
}

fn times(b: &Browser, action: Action) -> usize {
    b.done.iter().filter(|a| **a == action).count()
}

fn typed_reply(b: &Browser) -> bool {
    b.typed.iter().any(|(element, _)| *element == Element::ReplyEditor)
}

#[test]
fn a_run_starts_with_the_driver() {
    let c = controller(true);
    assert_eq!(c.phase, Phase::SpawnDriver);
    assert_eq!(c.action(), Action::SpawnDriver);
    assert!(!c.is_finished());
    assert!(c.verdict().is_ok());
    assert!(matches!(c.before, StatValue::Absent));
    assert!(matches!(c.after, StatValue::Absent));
}

#[test]
fn a_run_for_today_uses_the_local_date() {
    let c = Controller::for_today(config(false));
    assert_eq!(c.phase, Phase::SpawnDriver);
    assert!((1..=12).contains(&c.date.month));
    assert!((1..=31).contains(&c.date.day));
}

#[test]
fn clean_run_when_already_signed_in() {
    let mut b = browser();
    let mut c = controller(true);
    drive(&mut b, &mut c);
    assert!(c.verdict().is_ok());
    assert_eq!(
        b.lines,
        vec![
            "=> Current 节操 is 1234.",
            "=> Target string (today date): 【2024/3/7】",
            "=> Successfully went to the 签到页面.",
            "=> Successfully went to the 回复页面.",
            "=> Successfully 输入回复信息.",
            "=> Successfully 点击回复按钮.",
            "=> Successfully 签到!",
            "=> 节操从 1234 变为 1239.",
            "=> Successfully killed chromedriver.",
            "=> Goodbye!",
        ]
    );
    assert_eq!(b.typed, vec![(Element::ReplyEditor, "签到喵~【2024/3/7】".to_string())]);
    assert_eq!(times(&b, Action::SpawnDriver), 1);
    assert_eq!(times(&b, Action::OpenSession), 1);
    assert_eq!(times(&b, Action::QuitSession), 1);
    assert_eq!(times(&b, Action::KillDriver), 1);
    assert_eq!(times(&b, Action::Click(Element::SubmitReply)), 1);
    assert_eq!(times(&b, Action::ScrollToBottom), 1);
    assert!(matches!(&c.before, StatValue::Measured(f) if f == "1234"));
    assert!(matches!(&c.after, StatValue::Measured(f) if f == "1239"));
}

#[test]
fn clean_run_in_the_order_of_the_workflow() {
    let mut b = browser();
    b.signed_in = false;
    let mut c = controller(false);
    drive(&mut b, &mut c);
    assert!(c.verdict().is_ok());
    let expected = vec![
        Action::SpawnDriver,
        Action::OpenSession,
        Action::Navigate(Page::Login),
        Action::Pause(Delay::Settle),
        Action::ReadUrl,
        Action::Find(Element::UsernameField),
        Action::Find(Element::PasswordField),
        Action::Find(Element::SignInButton),
        Action::SendKeys(Element::UsernameField, Entry::Username),
        Action::SendKeys(Element::PasswordField, Entry::Password),
        Action::Click(Element::SignInButton),
        Action::Pause(Delay::Settle),
        Action::Navigate(Page::Login),
        Action::Pause(Delay::Settle),
        Action::ReadUrl,
        Action::Report(Notice::StatBefore),
        Action::Navigate(Page::Forum),
        Action::Pause(Delay::Settle),
        Action::ReadUrl,
        Action::Report(Notice::TargetToken),
        Action::Find(Element::TodayThread),
        Action::Click(Element::TodayThread),
        Action::Pause(Delay::Settle),
        Action::ReadUrl,
        Action::Report(Notice::ThreadReached),
        Action::Find(Element::ReplyPageLink),
        Action::Click(Element::ReplyPageLink),
        Action::Pause(Delay::Settle),
        Action::Report(Notice::ReplyPageReached),
        Action::Find(Element::ReplyEditor),
        Action::SendKeys(Element::ReplyEditor, Entry::Reply),
        Action::Report(Notice::ReplyTyped),
        Action::ScrollToBottom,
        Action::Pause(Delay::Settle),
        Action::Find(Element::SubmitReply),
        Action::Click(Element::SubmitReply),
        Action::Report(Notice::ReplySubmitted),
        Action::Pause(Delay::Settle),
        Action::Report(Notice::CheckedIn),
        Action::Report(Notice::StatAfter),
        Action::Pause(Delay::Cooldown),
        Action::QuitSession,
        Action::KillDriver,
        Action::Report(Notice::DriverKilled),
        Action::Report(Notice::Farewell),
    ];
    assert_eq!(b.done, expected);
    assert_eq!(
        b.typed,
        vec![
            (Element::UsernameField, "alice".to_string()),
            (Element::PasswordField, "s3cret".to_string()),
            (Element::ReplyEditor, "签到喵~【2024/3/7】".to_string()),
        ]
    );
    assert_eq!(b.pauses, vec![3, 3, 3, 3, 3, 3, 3, 3, 5]);
}

#[test]
fn signed_in_account_skips_the_credentials() {
    let mut b = browser();
    let mut c = controller(false);
    drive(&mut b, &mut c);
    assert!(c.verdict().is_ok());
    assert_eq!(times(&b, Action::Find(Element::UsernameField)), 0);
    assert_eq!(times(&b, Action::Click(Element::SignInButton)), 0);
    assert_eq!(times(&b, Action::Navigate(Page::Login)), 2);
    assert!(b.typed.iter().all(|(element, _)| *element == Element::ReplyEditor));
}

#[test]
fn rejected_login_stops_before_the_forum() {
    let mut b = browser();
    b.signed_in = false;
    b.accepts_login = false;
    let mut c = controller(true);
    drive(&mut b, &mut c);
    assert!(matches!(c.verdict(), Err(RunError::Gate(GateFailure::LoginRejected))));
    assert_eq!(c.verdict().unwrap_err().message(), "Failed to login.");
    assert_eq!(times(&b, Action::Navigate(Page::Forum)), 0);
    assert_eq!(times(&b, Action::Navigate(Page::Profile)), 0);
    assert!(!typed_reply(&b));
    assert_eq!(
        b.lines,
        vec!["=> Failed to login.", "=> Successfully killed chromedriver.", "=> Goodbye!"]
    );
    assert_eq!(times(&b, Action::QuitSession), 1);
    assert_eq!(times(&b, Action::KillDriver), 1);
    assert_eq!(times(&b, Action::Pause(Delay::Cooldown)), 0);
}

#[test]
fn forum_that_redirects_fails_the_run() {
    let mut b = browser();
    b.forum_redirects = true;
    let mut c = controller(false);
    drive(&mut b, &mut c);
    assert!(matches!(c.verdict(), Err(RunError::Gate(GateFailure::ForumNotReached))));
    assert_eq!(c.verdict().unwrap_err().message(), "Failed to go to the forum page.");
    assert_eq!(times(&b, Action::Find(Element::TodayThread)), 0);
    assert!(b.lines.contains(&"=> Failed to go to the forum page.".to_string()));
    assert_eq!(times(&b, Action::QuitSession), 1);
    assert_eq!(times(&b, Action::KillDriver), 1);
}

#[test]
fn missing_thread_fails_without_a_reply() {
    let mut b = browser();
    b.has_thread = false;
    let mut c = controller(true);
    drive(&mut b, &mut c);
    assert!(matches!(c.verdict(), Err(RunError::Protocol(m)) if m == "no such element"));
    assert!(!typed_reply(&b));
    assert_eq!(times(&b, Action::Click(Element::TodayThread)), 0);
    assert_eq!(times(&b, Action::Click(Element::SubmitReply)), 0);
    assert_eq!(times(&b, Action::SendKeys(Element::ReplyEditor, Entry::Reply)), 0);
    assert_eq!(
        b.lines,
        vec![
            "=> Current 节操 is 1234.",
            "=> Target string (today date): 【2024/3/7】",
            "=> no such element",
            "=> Successfully killed chromedriver.",
            "=> Goodbye!",
        ]
    );
    assert_eq!(times(&b, Action::QuitSession), 1);
    assert_eq!(times(&b, Action::KillDriver), 1);
}

#[test]
fn click_that_leads_elsewhere_fails_the_run() {
    let mut b = browser();
    b.thread_leads_elsewhere = true;
    let mut c = controller(false);
    drive(&mut b, &mut c);
    assert!(matches!(c.verdict(), Err(RunError::Gate(GateFailure::ThreadNotReached))));
    assert_eq!(c.verdict().unwrap_err().message(), "Failed to go to the target post.");
    assert_eq!(c.verdict().unwrap_err().line(), "=> Failed to go to the 签到页面.");
    assert!(!typed_reply(&b));
    assert!(b.lines.contains(&"=> Failed to go to the 签到页面.".to_string()));
}

#[test]
fn driver_that_does_not_start_leaves_nothing_to_release() {
    let mut b = browser();
    b.fail_on = Some(Action::SpawnDriver);
    let mut c = controller(true);
    let steps = drive(&mut b, &mut c);
    assert_eq!(steps, 2);
    assert_eq!(b.done, vec![Action::SpawnDriver, Action::Report(Notice::Failure)]);
    assert!(matches!(c.verdict(), Err(RunError::DriverStart(_))));
    assert_eq!(
        b.lines,
        vec!["=> Failed to start chromedriver: cannot do SpawnDriver"]
    );
}

#[test]
fn session_that_does_not_open_still_kills_the_driver() {
    let mut b = browser();
    b.fail_on = Some(Action::OpenSession);
    let mut c = controller(true);
    drive(&mut b, &mut c);
    assert_eq!(
        b.done,
        vec![
            Action::SpawnDriver,
            Action::OpenSession,
            Action::Report(Notice::Failure),
            Action::KillDriver,
            Action::Report(Notice::DriverKilled),
            Action::Report(Notice::Farewell),
        ]
    );
    assert!(matches!(c.verdict(), Err(RunError::Protocol(m)) if m == "cannot do OpenSession"));
}

#[test]
fn every_failing_call_is_fatal_and_still_cleaned_up() {
    let calls = [
        Action::Navigate(Page::Login),
        Action::ReadUrl,
        Action::Navigate(Page::Profile),
        Action::Find(Element::StatDisplay),
        Action::ReadText(Element::StatDisplay),
        Action::Navigate(Page::Forum),
        Action::Find(Element::TodayThread),
        Action::Click(Element::TodayThread),
        Action::Find(Element::ReplyPageLink),
        Action::Click(Element::ReplyPageLink),
        Action::Find(Element::ReplyEditor),
        Action::SendKeys(Element::ReplyEditor, Entry::Reply),
        Action::ScrollToBottom,
        Action::Find(Element::SubmitReply),
        Action::Click(Element::SubmitReply),
    ];
    for call in calls {
        let mut b = browser();
        b.fail_on = Some(call);
        let mut c = controller(true);
        drive(&mut b, &mut c);
        assert!(matches!(c.verdict(), Err(RunError::Protocol(_))), "{:?}", call);
        assert_eq!(times(&b, call), 1, "{:?}", call);
        let at = b.done.iter().position(|a| *a == call).unwrap();
        assert_eq!(
            b.done[at + 1..].to_vec(),
            vec![
                Action::Report(Notice::Failure),
                Action::QuitSession,
                Action::KillDriver,
                Action::Report(Notice::DriverKilled),
                Action::Report(Notice::Farewell),
            ],
            "{:?}",
            call
        );
    }
}

#[test]
fn missing_sign_in_field_is_fatal_before_anything_is_typed() {
    let mut b = browser();
    b.signed_in = false;
    b.fail_on = Some(Action::Find(Element::PasswordField));
    let mut c = controller(true);
    drive(&mut b, &mut c);
    assert!(matches!(c.verdict(), Err(RunError::Protocol(_))));
    assert!(b.typed.is_empty());
    assert_eq!(times(&b, Action::KillDriver), 1);
    assert_eq!(times(&b, Action::QuitSession), 1);
}

#[test]
fn session_that_will_not_end_fails_a_clean_run_but_the_driver_is_killed() {
    let mut b = browser();
    b.fail_on = Some(Action::QuitSession);
    let mut c = controller(false);
    drive(&mut b, &mut c);
    assert!(matches!(c.verdict(), Err(RunError::Protocol(m)) if m == "cannot do QuitSession"));
    assert_eq!(times(&b, Action::QuitSession), 1);
    assert_eq!(times(&b, Action::KillDriver), 1);
}

#[test]
fn driver_that_will_not_die_fails_a_clean_run() {
    let mut b = browser();
    b.fail_on = Some(Action::KillDriver);
    let mut c = controller(false);
    drive(&mut b, &mut c);
    assert!(matches!(c.verdict(), Err(RunError::Teardown(m)) if m == "cannot do KillDriver"));
    assert_eq!(times(&b, Action::KillDriver), 1);
    assert_eq!(
        b.lines.last().unwrap(),
        "=> Failed to kill chromedriver: cannot do KillDriver"
    );
    assert!(!b.lines.contains(&"=> Goodbye!".to_string()));
}

#[test]
fn failed_kill_does_not_replace_the_workflow_error() {
    let mut b = browser();
    b.has_thread = false;
    let mut c = controller(false);
    while c.phase != Phase::KillDriver {
        let action = c.action();
        let outcome = perform(&mut b, &c, action);
        c.advance(outcome);
    }
    c.advance(Outcome::Failed("still alive".to_string()));
    assert_eq!(c.phase, Phase::AnnounceKillFailed);
    assert_eq!(c.kill_fault.as_deref(), Some("still alive"));
    assert_eq!(
        c.notice_line(Notice::DriverKillFailed),
        "=> Failed to kill chromedriver: still alive"
    );
    c.advance(Outcome::Done);
    assert!(c.is_finished());
    assert!(matches!(c.verdict(), Err(RunError::Protocol(m)) if m == "no such element"));
}

#[test]
fn no_profile_address_means_no_reading() {
    let mut b = browser();
    let mut c = controller(false);
    drive(&mut b, &mut c);
    assert!(c.verdict().is_ok());
    assert_eq!(times(&b, Action::Navigate(Page::Profile)), 0);
    assert_eq!(times(&b, Action::ParseReading), 0);
    assert!(matches!(c.before, StatValue::Absent));
    assert!(matches!(c.after, StatValue::Absent));
    assert_eq!(c.address(Page::Profile), None);
    assert_eq!(
        b.lines.iter().filter(|l| *l == "=> 没有设置SSTM_PROFILE_URL，无法获取当前节操。").count(),
        2
    );
}

#[test]
fn figure_that_is_no_number_is_absent_and_the_run_goes_on() {
    let mut b = browser();
    b.figures = vec![" J", "n/a J"];
    let mut c = controller(true);
    drive(&mut b, &mut c);
    assert!(c.verdict().is_ok());
    assert!(matches!(c.before, StatValue::Absent));
    assert!(matches!(c.after, StatValue::Absent));
    assert_eq!(times(&b, Action::Click(Element::SubmitReply)), 1);
    assert_eq!(times(&b, Action::ParseReading), 2);
}

#[test]
fn negative_figure_is_absent() {
    let mut b = browser();
    b.figures = vec!["-3 J", "12.5 J"];
    let mut c = controller(true);
    drive(&mut b, &mut c);
    assert!(matches!(c.before, StatValue::Absent));
    assert!(matches!(&c.after, StatValue::Measured(f) if f == "12.5"));
    assert!(b.lines.contains(&"=> 节操从 -1 变为 12.5.".to_string()));
}

#[test]
fn the_unit_is_taken_off_before_the_figure_is_judged() {
    let mut c = controller(true);
    c.phase = Phase::BeforeRead;
    c.advance(Outcome::Text("1234 J".to_string()));
    assert_eq!(c.phase, Phase::BeforeParse);
    assert_eq!(c.action(), Action::ParseReading);
    assert_eq!(c.pending_reading(), "1234");
    c.advance(Outcome::Text("1234".to_string()));
    assert_eq!(c.phase, Phase::BeforeReport);
    assert!(matches!(&c.before, StatValue::Measured(f) if f == "1234"));
    assert_eq!(c.notice_line(Notice::StatBefore), "=> Current 节操 is 1234.");
}

#[test]
fn profile_page_that_redirects_is_no_failure() {
    let mut c = controller(true);
    c.phase = Phase::BeforeProbe;
    c.advance(Outcome::Text(HOME.to_string()));
    assert_eq!(c.phase, Phase::BeforeFind);
    assert!(c.verdict().is_ok());
}

#[test]
fn login_gate_compares_the_whole_address() {
    for (seen, asks) in [
        ("https://sstm.moe/login", true),
        ("https://sstm.moe/login/", false),
        ("https://sstm.moe/LOGIN", false),
        ("https://sstm.moe/", false),
        ("", false),
    ] {
        let mut c = controller(true);
        c.phase = Phase::LoginProbe;
        c.advance(Outcome::Text(seen.to_string()));
        let expected = if asks { Phase::FindUsername } else { Phase::RecheckVisit };
        assert_eq!(c.phase, expected, "{:?}", seen);
    }
}

#[test]
fn forum_gate_compares_the_whole_address() {
    let forum = "https://sstm.moe/forum/72-%E5%90%8C%E7%9B%9F%E7%AD%BE%E5%88%B0%E5%8C%BA/";
    let mut c = controller(true);
    c.phase = Phase::ForumProbe;
    c.advance(Outcome::Text(forum.to_string()));
    assert_eq!(c.phase, Phase::AnnounceToken);
    let mut c = controller(true);
    c.phase = Phase::ForumProbe;
    c.advance(Outcome::Text(forum.trim_end_matches('/').to_string()));
    assert_eq!(c.phase, Phase::AnnounceFailure);
    assert!(matches!(c.verdict(), Err(RunError::Gate(GateFailure::ForumNotReached))));
}

#[test]
fn finished_run_ignores_further_outcomes() {
    let mut b = browser();
    let mut c = controller(false);
    drive(&mut b, &mut c);
    c.advance(Outcome::Failed("late".to_string()));
    assert!(c.is_finished());
    assert!(c.verdict().is_ok());
    c.advance(Outcome::Text("late".to_string()));
    assert!(c.is_finished());
}

#[test]
fn every_phase_names_its_action_and_successor() {
    assert_eq!(Phase::LoginVisit.action(), Action::Navigate(Page::Login));
    assert_eq!(Phase::TypeReply.action(), Action::SendKeys(Element::ReplyEditor, Entry::Reply));
    assert_eq!(Phase::Cooldown.action(), Action::Pause(Delay::Cooldown));
    assert_eq!(Phase::Finished.action(), Action::Finish);
    assert_eq!(Phase::Cooldown.next(), Phase::QuitSession);
    assert_eq!(Phase::AnnounceFailure.next(), Phase::QuitSession);
    assert_eq!(Phase::AnnounceSessionFailure.next(), Phase::KillDriver);
    assert_eq!(Phase::AnnounceSpawnFailure.next(), Phase::Finished);
    assert_eq!(Phase::Finished.next(), Phase::Finished);
}

#[test]
fn directions_give_the_particulars() {
    let c = controller(true);
    assert_eq!(c.address(Page::Login).as_deref(), Some("https://sstm.moe/login"));
    assert_eq!(c.address(Page::Profile).as_deref(), Some(PROFILE));
    assert_eq!(
        c.address(Page::Forum).as_deref(),
        Some("https://sstm.moe/forum/72-%E5%90%8C%E7%9B%9F%E7%AD%BE%E5%88%B0%E5%8C%BA/")
    );
    assert_eq!(c.selector(Element::TodayThread).value, "a[title*='【2024/3/7】']");
    assert_eq!(c.entry(Entry::Username), "alice");
    assert_eq!(c.entry(Entry::Password), "s3cret");
    assert_eq!(c.entry(Entry::Reply), "签到喵~【2024/3/7】");
    assert_eq!(c.pause_secs(Delay::Settle), 3);
    assert_eq!(c.pause_secs(Delay::Cooldown), 5);
    assert_eq!(c.notice_line(Notice::Failure), "=> ");
    assert_eq!(c.notice_line(Notice::DriverKillFailed), "=> Failed to kill chromedriver: ");
}

#[test]
fn error_messages_and_lines() {
    let e = RunError::DriverStart("not found".to_string());
    assert_eq!(e.message(), "Failed to start chromedriver: not found");
    assert_eq!(e.line(), "=> Failed to start chromedriver: not found");
    let e = RunError::Protocol("session lost".to_string());
    assert_eq!(e.message(), "session lost");
    assert_eq!(e.line(), "=> session lost");
    let e = RunError::Teardown("denied".to_string());
    assert_eq!(e.clone().message(), "denied");
    let e = RunError::Gate(GateFailure::ForumNotReached);
    assert_eq!(e.line(), "=> Failed to go to the forum page.");
}
