//! The vocabulary of the workflow: what the controller asks its caller to do,
//! the phases it moves through, and their fixed order.

use vstd::prelude::*;

verus! {

/// A page that the workflow visits.
#[derive(Clone, Copy, Debug, PartialEq, Eq, Structural)]
pub enum Page {
    Login,
    Profile,
    Forum,
}

/// A page element that the workflow looks up and then uses.
#[derive(Clone, Copy, Debug, PartialEq, Eq, Structural)]
pub enum Element {
    UsernameField,
    PasswordField,
    SignInButton,
    StatDisplay,
    TodayThread,
    ReplyPageLink,
    ReplyEditor,
    SubmitReply,
}

/// A text that the workflow types into an element.
#[derive(Clone, Copy, Debug, PartialEq, Eq, Structural)]
pub enum Entry {
    Username,
    Password,
    Reply,
}

/// A pause: the configured settling time, or the fixed one before teardown.
#[derive(Clone, Copy, Debug, PartialEq, Eq, Structural)]
pub enum Delay {
    Settle,
    Cooldown,
}

/// A line for the operator.
#[derive(Clone, Copy, Debug, PartialEq, Eq, Structural)]
pub enum Notice {
    StatBefore,
    TargetToken,
    ThreadReached,
    ReplyPageReached,
    ReplyTyped,
    ReplySubmitted,
    CheckedIn,
    StatAfter,
    Failure,
    DriverKilled,
    Farewell,
    DriverKillFailed,
}

/// One thing for the caller to do before it reports back. A call that fails
/// is reported as a failure with its description; one that reads something
/// hands back the text it read; any other is reported as done.
#[derive(Clone, Copy, Debug, PartialEq, Eq, Structural)]
pub enum Action {
    /// Start the driver executable.
    SpawnDriver,
    /// Open a browser session on the driver.
    OpenSession,
    /// Send the browser to a page.
    Navigate(Page),
    /// Wait.
    Pause(Delay),
    /// Read the browser's current address.
    ReadUrl,
    /// Look an element up and keep it.
    Find(Element),
    /// Read the text of an element found earlier.
    ReadText(Element),
    /// Read the pending figure as a number and hand it back as it prints,
    /// if it is one and not negative.
    ParseReading,
    /// Type a text into an element found earlier.
    SendKeys(Element, Entry),
    /// Click an element found earlier.
    Click(Element),
    /// Scroll the page to its end.
    ScrollToBottom,
    /// Print a line.
    Report(Notice),
    /// End the browser session.
    QuitSession,
    /// Kill the driver process.
    KillDriver,
    /// Stop: the run is over.
    Finish,
}

/// Where the workflow stands. Each phase names the one action that is due in
/// it.
#[derive(Clone, Copy, Debug, PartialEq, Eq, Structural)]
pub enum Phase {
    /// The driver executable is to be started.
    SpawnDriver,
    /// A browser session is to be opened on the driver.
    OpenSession,
    /// First visit to the login page.
    LoginVisit,
    LoginSettle,
    /// Decides whether credentials have to be entered.
    LoginProbe,
    FindUsername,
    FindPassword,
    FindSignIn,
    TypeUsername,
    TypePassword,
    ClickSignIn,
    SignInSettle,
    /// Second visit to the login page.
    RecheckVisit,
    RecheckSettle,
    /// Decides whether the account is signed in.
    RecheckProbe,
    /// Start of the reading taken before the check-in.
    BeforeVisit,
    BeforeSettle,
    BeforeProbe,
    BeforeFind,
    BeforeRead,
    BeforeParse,
    BeforeReport,
    ForumVisit,
    ForumSettle,
    /// Decides whether the forum section was reached.
    ForumProbe,
    AnnounceToken,
    FindThread,
    ClickThread,
    ThreadSettle,
    /// Decides whether the day's thread was reached.
    ThreadProbe,
    AnnounceThread,
    FindReplyLink,
    ClickReplyLink,
    ReplyPageSettle,
    AnnounceReplyPage,
    FindEditor,
    TypeReply,
    AnnounceTyped,
    Scroll,
    ScrollSettle,
    FindSubmit,
    ClickSubmit,
    AnnounceSubmitted,
    SubmitSettle,
    AnnounceCheckedIn,
    /// Start of the reading taken after the check-in.
    AfterVisit,
    AfterSettle,
    AfterProbe,
    AfterFind,
    AfterRead,
    AfterParse,
    AfterReport,
    Cooldown,
    /// A step failed while the session was open.
    AnnounceFailure,
    QuitSession,
    /// The session could not be opened.
    AnnounceSessionFailure,
    KillDriver,
    AnnounceKilled,
    AnnounceFarewell,
    AnnounceKillFailed,
    /// The driver could not be started.
    AnnounceSpawnFailure,
    /// Nothing is left to do.
    Finished,
}

impl Phase {
    /// The action that is due in this phase.
    pub open spec fn action_of(self) -> Action {
        match self {
            Phase::SpawnDriver => Action::SpawnDriver,
            Phase::OpenSession => Action::OpenSession,
            Phase::LoginVisit => Action::Navigate(Page::Login),
            Phase::LoginSettle => Action::Pause(Delay::Settle),
            Phase::LoginProbe => Action::ReadUrl,
            Phase::FindUsername => Action::Find(Element::UsernameField),
            Phase::FindPassword => Action::Find(Element::PasswordField),
            Phase::FindSignIn => Action::Find(Element::SignInButton),
            Phase::TypeUsername => Action::SendKeys(Element::UsernameField, Entry::Username),
            Phase::TypePassword => Action::SendKeys(Element::PasswordField, Entry::Password),
            Phase::ClickSignIn => Action::Click(Element::SignInButton),
            Phase::SignInSettle => Action::Pause(Delay::Settle),
            Phase::RecheckVisit => Action::Navigate(Page::Login),
            Phase::RecheckSettle => Action::Pause(Delay::Settle),
            Phase::RecheckProbe => Action::ReadUrl,
            Phase::BeforeVisit => Action::Navigate(Page::Profile),
            Phase::BeforeSettle => Action::Pause(Delay::Settle),
            Phase::BeforeProbe => Action::ReadUrl,
            Phase::BeforeFind => Action::Find(Element::StatDisplay),
            Phase::BeforeRead => Action::ReadText(Element::StatDisplay),
            Phase::BeforeParse => Action::ParseReading,
            Phase::BeforeReport => Action::Report(Notice::StatBefore),
            Phase::ForumVisit => Action::Navigate(Page::Forum),
            Phase::ForumSettle => Action::Pause(Delay::Settle),
            Phase::ForumProbe => Action::ReadUrl,
            Phase::AnnounceToken => Action::Report(Notice::TargetToken),
            Phase::FindThread => Action::Find(Element::TodayThread),
            Phase::ClickThread => Action::Click(Element::TodayThread),
            Phase::ThreadSettle => Action::Pause(Delay::Settle),
            Phase::ThreadProbe => Action::ReadUrl,
            Phase::AnnounceThread => Action::Report(Notice::ThreadReached),
            Phase::FindReplyLink => Action::Find(Element::ReplyPageLink),
            Phase::ClickReplyLink => Action::Click(Element::ReplyPageLink),
            Phase::ReplyPageSettle => Action::Pause(Delay::Settle),
            Phase::AnnounceReplyPage => Action::Report(Notice::ReplyPageReached),
            Phase::FindEditor => Action::Find(Element::ReplyEditor),
            Phase::TypeReply => Action::SendKeys(Element::ReplyEditor, Entry::Reply),
            Phase::AnnounceTyped => Action::Report(Notice::ReplyTyped),
            Phase::Scroll => Action::ScrollToBottom,
            Phase::ScrollSettle => Action::Pause(Delay::Settle),
            Phase::FindSubmit => Action::Find(Element::SubmitReply),
            Phase::ClickSubmit => Action::Click(Element::SubmitReply),
            Phase::AnnounceSubmitted => Action::Report(Notice::ReplySubmitted),
            Phase::SubmitSettle => Action::Pause(Delay::Settle),
            Phase::AnnounceCheckedIn => Action::Report(Notice::CheckedIn),
            Phase::AfterVisit => Action::Navigate(Page::Profile),
            Phase::AfterSettle => Action::Pause(Delay::Settle),
            Phase::AfterProbe => Action::ReadUrl,
            Phase::AfterFind => Action::Find(Element::StatDisplay),
            Phase::AfterRead => Action::ReadText(Element::StatDisplay),
            Phase::AfterParse => Action::ParseReading,
            Phase::AfterReport => Action::Report(Notice::StatAfter),
            Phase::Cooldown => Action::Pause(Delay::Cooldown),
            Phase::AnnounceFailure => Action::Report(Notice::Failure),
            Phase::QuitSession => Action::QuitSession,
            Phase::AnnounceSessionFailure => Action::Report(Notice::Failure),
            Phase::KillDriver => Action::KillDriver,
            Phase::AnnounceKilled => Action::Report(Notice::DriverKilled),
            Phase::AnnounceFarewell => Action::Report(Notice::Farewell),
            Phase::AnnounceKillFailed => Action::Report(Notice::DriverKillFailed),
            Phase::AnnounceSpawnFailure => Action::Report(Notice::Failure),
            Phase::Finished => Action::Finish,
        }
    }

    /// The phase that follows when the step went through and nothing had to
    /// be decided.
    pub open spec fn successor(self) -> Phase {
        match self {
            Phase::SpawnDriver => Phase::OpenSession,
            Phase::OpenSession => Phase::LoginVisit,
            Phase::LoginVisit => Phase::LoginSettle,
            Phase::LoginSettle => Phase::LoginProbe,
            Phase::LoginProbe => Phase::FindUsername,
            Phase::FindUsername => Phase::FindPassword,
            Phase::FindPassword => Phase::FindSignIn,
            Phase::FindSignIn => Phase::TypeUsername,
            Phase::TypeUsername => Phase::TypePassword,
            Phase::TypePassword => Phase::ClickSignIn,
            Phase::ClickSignIn => Phase::SignInSettle,
            Phase::SignInSettle => Phase::RecheckVisit,
            Phase::RecheckVisit => Phase::RecheckSettle,
            Phase::RecheckSettle => Phase::RecheckProbe,
            Phase::RecheckProbe => Phase::BeforeVisit,
            Phase::BeforeVisit => Phase::BeforeSettle,
            Phase::BeforeSettle => Phase::BeforeProbe,
            Phase::BeforeProbe => Phase::BeforeFind,
            Phase::BeforeFind => Phase::BeforeRead,
            Phase::BeforeRead => Phase::BeforeParse,
            Phase::BeforeParse => Phase::BeforeReport,
            Phase::BeforeReport => Phase::ForumVisit,
            Phase::ForumVisit => Phase::ForumSettle,
            Phase::ForumSettle => Phase::ForumProbe,
            Phase::ForumProbe => Phase::AnnounceToken,
            Phase::AnnounceToken => Phase::FindThread,
            Phase::FindThread => Phase::ClickThread,
            Phase::ClickThread => Phase::ThreadSettle,
            Phase::ThreadSettle => Phase::ThreadProbe,
            Phase::ThreadProbe => Phase::AnnounceThread,
            Phase::AnnounceThread => Phase::FindReplyLink,
            Phase::FindReplyLink => Phase::ClickReplyLink,
            Phase::ClickReplyLink => Phase::ReplyPageSettle,
            Phase::ReplyPageSettle => Phase::AnnounceReplyPage,
            Phase::AnnounceReplyPage => Phase::FindEditor,
            Phase::FindEditor => Phase::TypeReply,
            Phase::TypeReply => Phase::AnnounceTyped,
            Phase::AnnounceTyped => Phase::Scroll,
            Phase::Scroll => Phase::ScrollSettle,
            Phase::ScrollSettle => Phase::FindSubmit,
            Phase::FindSubmit => Phase::ClickSubmit,
            Phase::ClickSubmit => Phase::AnnounceSubmitted,
            Phase::AnnounceSubmitted => Phase::SubmitSettle,
            Phase::SubmitSettle => Phase::AnnounceCheckedIn,
            Phase::AnnounceCheckedIn => Phase::AfterVisit,
            Phase::AfterVisit => Phase::AfterSettle,
            Phase::AfterSettle => Phase::AfterProbe,
            Phase::AfterProbe => Phase::AfterFind,
            Phase::AfterFind => Phase::AfterRead,
            Phase::AfterRead => Phase::AfterParse,
            Phase::AfterParse => Phase::AfterReport,
            Phase::AfterReport => Phase::Cooldown,
            Phase::Cooldown => Phase::QuitSession,
            Phase::AnnounceFailure => Phase::QuitSession,
            Phase::QuitSession => Phase::KillDriver,
            Phase::AnnounceSessionFailure => Phase::KillDriver,
            Phase::KillDriver => Phase::AnnounceKilled,
            Phase::AnnounceKilled => Phase::AnnounceFarewell,
            Phase::AnnounceFarewell => Phase::Finished,
            Phase::AnnounceKillFailed => Phase::Finished,
            Phase::AnnounceSpawnFailure => Phase::Finished,
            Phase::Finished => Phase::Finished,
        }
    }

    /// An upper bound on the number of steps still to take from this phase.
    pub open spec fn steps_left(self) -> nat {
        match self {
            Phase::SpawnDriver => 57,
            Phase::OpenSession => 56,
            Phase::LoginVisit => 55,
            Phase::LoginSettle => 54,
            Phase::LoginProbe => 53,
            Phase::FindUsername => 52,
            Phase::FindPassword => 51,
            Phase::FindSignIn => 50,
            Phase::TypeUsername => 49,
            Phase::TypePassword => 48,
            Phase::ClickSignIn => 47,
            Phase::SignInSettle => 46,
            Phase::RecheckVisit => 45,
            Phase::RecheckSettle => 44,
            Phase::RecheckProbe => 43,
            Phase::BeforeVisit => 42,
            Phase::BeforeSettle => 41,
            Phase::BeforeProbe => 40,
            Phase::BeforeFind => 39,
            Phase::BeforeRead => 38,
            Phase::BeforeParse => 37,
            Phase::BeforeReport => 36,
            Phase::ForumVisit => 35,
            Phase::ForumSettle => 34,
            Phase::ForumProbe => 33,
            Phase::AnnounceToken => 32,
            Phase::FindThread => 31,
            Phase::ClickThread => 30,
            Phase::ThreadSettle => 29,
            Phase::ThreadProbe => 28,
            Phase::AnnounceThread => 27,
            Phase::FindReplyLink => 26,
            Phase::ClickReplyLink => 25,
            Phase::ReplyPageSettle => 24,
            Phase::AnnounceReplyPage => 23,
            Phase::FindEditor => 22,
            Phase::TypeReply => 21,
            Phase::AnnounceTyped => 20,
            Phase::Scroll => 19,
            Phase::ScrollSettle => 18,
            Phase::FindSubmit => 17,
            Phase::ClickSubmit => 16,
            Phase::AnnounceSubmitted => 15,
            Phase::SubmitSettle => 14,
            Phase::AnnounceCheckedIn => 13,
            Phase::AfterVisit => 12,
            Phase::AfterSettle => 11,
            Phase::AfterProbe => 10,
            Phase::AfterFind => 9,
            Phase::AfterRead => 8,
            Phase::AfterParse => 7,
            Phase::AfterReport => 6,
            Phase::Cooldown => 5,
            Phase::AnnounceFailure => 5,
            Phase::QuitSession => 4,
            Phase::AnnounceSessionFailure => 4,
            Phase::KillDriver => 3,
            Phase::AnnounceKilled => 2,
            Phase::AnnounceFarewell => 1,
            Phase::AnnounceKillFailed => 1,
            Phase::AnnounceSpawnFailure => 1,
            Phase::Finished => 0,
        }
    }

    /// The action that is due in this phase.
    pub fn action(self) -> (a: Action)
        ensures
            a == self.action_of(),
    {
        match self {
            Phase::SpawnDriver => Action::SpawnDriver,
            Phase::OpenSession => Action::OpenSession,
            Phase::LoginVisit => Action::Navigate(Page::Login),
            Phase::LoginSettle => Action::Pause(Delay::Settle),
            Phase::LoginProbe => Action::ReadUrl,
            Phase::FindUsername => Action::Find(Element::UsernameField),
            Phase::FindPassword => Action::Find(Element::PasswordField),
            Phase::FindSignIn => Action::Find(Element::SignInButton),
            Phase::TypeUsername => Action::SendKeys(Element::UsernameField, Entry::Username),
            Phase::TypePassword => Action::SendKeys(Element::PasswordField, Entry::Password),
            Phase::ClickSignIn => Action::Click(Element::SignInButton),
            Phase::SignInSettle => Action::Pause(Delay::Settle),
            Phase::RecheckVisit => Action::Navigate(Page::Login),
            Phase::RecheckSettle => Action::Pause(Delay::Settle),
            Phase::RecheckProbe => Action::ReadUrl,
            Phase::BeforeVisit => Action::Navigate(Page::Profile),
            Phase::BeforeSettle => Action::Pause(Delay::Settle),
            Phase::BeforeProbe => Action::ReadUrl,
            Phase::BeforeFind => Action::Find(Element::StatDisplay),
            Phase::BeforeRead => Action::ReadText(Element::StatDisplay),
            Phase::BeforeParse => Action::ParseReading,
            Phase::BeforeReport => Action::Report(Notice::StatBefore),
            Phase::ForumVisit => Action::Navigate(Page::Forum),
            Phase::ForumSettle => Action::Pause(Delay::Settle),
            Phase::ForumProbe => Action::ReadUrl,
            Phase::AnnounceToken => Action::Report(Notice::TargetToken),
            Phase::FindThread => Action::Find(Element::TodayThread),
            Phase::ClickThread => Action::Click(Element::TodayThread),
            Phase::ThreadSettle => Action::Pause(Delay::Settle),
            Phase::ThreadProbe => Action::ReadUrl,
            Phase::AnnounceThread => Action::Report(Notice::ThreadReached),
            Phase::FindReplyLink => Action::Find(Element::ReplyPageLink),
            Phase::ClickReplyLink => Action::Click(Element::ReplyPageLink),
            Phase::ReplyPageSettle => Action::Pause(Delay::Settle),
            Phase::AnnounceReplyPage => Action::Report(Notice::ReplyPageReached),
            Phase::FindEditor => Action::Find(Element::ReplyEditor),
            Phase::TypeReply => Action::SendKeys(Element::ReplyEditor, Entry::Reply),
            Phase::AnnounceTyped => Action::Report(Notice::ReplyTyped),
            Phase::Scroll => Action::ScrollToBottom,
            Phase::ScrollSettle => Action::Pause(Delay::Settle),
            Phase::FindSubmit => Action::Find(Element::SubmitReply),
            Phase::ClickSubmit => Action::Click(Element::SubmitReply),
            Phase::AnnounceSubmitted => Action::Report(Notice::ReplySubmitted),
            Phase::SubmitSettle => Action::Pause(Delay::Settle),
            Phase::AnnounceCheckedIn => Action::Report(Notice::CheckedIn),
            Phase::AfterVisit => Action::Navigate(Page::Profile),
            Phase::AfterSettle => Action::Pause(Delay::Settle),
            Phase::AfterProbe => Action::ReadUrl,
            Phase::AfterFind => Action::Find(Element::StatDisplay),
            Phase::AfterRead => Action::ReadText(Element::StatDisplay),
            Phase::AfterParse => Action::ParseReading,
            Phase::AfterReport => Action::Report(Notice::StatAfter),
            Phase::Cooldown => Action::Pause(Delay::Cooldown),
            Phase::AnnounceFailure => Action::Report(Notice::Failure),
            Phase::QuitSession => Action::QuitSession,
            Phase::AnnounceSessionFailure => Action::Report(Notice::Failure),
            Phase::KillDriver => Action::KillDriver,
            Phase::AnnounceKilled => Action::Report(Notice::DriverKilled),
            Phase::AnnounceFarewell => Action::Report(Notice::Farewell),
            Phase::AnnounceKillFailed => Action::Report(Notice::DriverKillFailed),
            Phase::AnnounceSpawnFailure => Action::Report(Notice::Failure),
            Phase::Finished => Action::Finish,
        }
    }

    /// The phase that follows when the step went through and nothing had to
    /// be decided.
    pub fn next(self) -> (p: Phase)
        ensures
            p == self.successor(),
    {
        match self {
            Phase::SpawnDriver => Phase::OpenSession,
            Phase::OpenSession => Phase::LoginVisit,
            Phase::LoginVisit => Phase::LoginSettle,
            Phase::LoginSettle => Phase::LoginProbe,
            Phase::LoginProbe => Phase::FindUsername,
            Phase::FindUsername => Phase::FindPassword,
            Phase::FindPassword => Phase::FindSignIn,
            Phase::FindSignIn => Phase::TypeUsername,
            Phase::TypeUsername => Phase::TypePassword,
            Phase::TypePassword => Phase::ClickSignIn,
            Phase::ClickSignIn => Phase::SignInSettle,
            Phase::SignInSettle => Phase::RecheckVisit,
            Phase::RecheckVisit => Phase::RecheckSettle,
            Phase::RecheckSettle => Phase::RecheckProbe,
            Phase::RecheckProbe => Phase::BeforeVisit,
            Phase::BeforeVisit => Phase::BeforeSettle,
            Phase::BeforeSettle => Phase::BeforeProbe,
            Phase::BeforeProbe => Phase::BeforeFind,
            Phase::BeforeFind => Phase::BeforeRead,
            Phase::BeforeRead => Phase::BeforeParse,
            Phase::BeforeParse => Phase::BeforeReport,
            Phase::BeforeReport => Phase::ForumVisit,
            Phase::ForumVisit => Phase::ForumSettle,
            Phase::ForumSettle => Phase::ForumProbe,
            Phase::ForumProbe => Phase::AnnounceToken,
            Phase::AnnounceToken => Phase::FindThread,
            Phase::FindThread => Phase::ClickThread,
            Phase::ClickThread => Phase::ThreadSettle,
            Phase::ThreadSettle => Phase::ThreadProbe,
            Phase::ThreadProbe => Phase::AnnounceThread,
            Phase::AnnounceThread => Phase::FindReplyLink,
            Phase::FindReplyLink => Phase::ClickReplyLink,
            Phase::ClickReplyLink => Phase::ReplyPageSettle,
            Phase::ReplyPageSettle => Phase::AnnounceReplyPage,
            Phase::AnnounceReplyPage => Phase::FindEditor,
            Phase::FindEditor => Phase::TypeReply,
            Phase::TypeReply => Phase::AnnounceTyped,
            Phase::AnnounceTyped => Phase::Scroll,
            Phase::Scroll => Phase::ScrollSettle,
            Phase::ScrollSettle => Phase::FindSubmit,
            Phase::FindSubmit => Phase::ClickSubmit,
            Phase::ClickSubmit => Phase::AnnounceSubmitted,
            Phase::AnnounceSubmitted => Phase::SubmitSettle,
            Phase::SubmitSettle => Phase::AnnounceCheckedIn,
            Phase::AnnounceCheckedIn => Phase::AfterVisit,
            Phase::AfterVisit => Phase::AfterSettle,
            Phase::AfterSettle => Phase::AfterProbe,
            Phase::AfterProbe => Phase::AfterFind,
            Phase::AfterFind => Phase::AfterRead,
            Phase::AfterRead => Phase::AfterParse,
            Phase::AfterParse => Phase::AfterReport,
            Phase::AfterReport => Phase::Cooldown,
            Phase::Cooldown => Phase::QuitSession,
            Phase::AnnounceFailure => Phase::QuitSession,
            Phase::QuitSession => Phase::KillDriver,
            Phase::AnnounceSessionFailure => Phase::KillDriver,
            Phase::KillDriver => Phase::AnnounceKilled,
            Phase::AnnounceKilled => Phase::AnnounceFarewell,
            Phase::AnnounceFarewell => Phase::Finished,
            Phase::AnnounceKillFailed => Phase::Finished,
            Phase::AnnounceSpawnFailure => Phase::Finished,
            Phase::Finished => Phase::Finished,
        }
    }
}

} // verus!
