//! The particulars of each action: which address, which lookup, which text,
//! how long a pause, which line. The controller hands out plain values; the
//! caller passes them to the browser and the console.

use vstd::prelude::*;
use vstd::string::StringExecFns;
use crate::config::RunConfigView;
use crate::controller::{Controller, ControllerView};
use crate::locator::{reply_content, reply_text, token, token_text};
use crate::outcome::RunError;
use crate::plan::{Delay, Element, Entry, Notice, Page};
use crate::site::{
    forum_address,
    forum_url,
    login_address,
    login_url,
    lookup_kind,
    lookup_value,
    selector,
    Selector,
};
use crate::stat::{before_line_text, change_line_text};
use crate::text::text_of;

verus! {

/// The address of `page`; the profile page has one only where the
/// configuration names it.
pub open spec fn page_url(config: RunConfigView, page: Page) -> Option<Seq<char>> {
    match page {
        Page::Login => Some(login_url()),
        Page::Forum => Some(forum_url()),
        Page::Profile => config.profile_url,
    }
}

/// The text typed for `entry`.
pub open spec fn entry_text(s: ControllerView, entry: Entry) -> Seq<char> {
    match entry {
        Entry::Username => s.config.username,
        Entry::Password => s.config.password,
        Entry::Reply => reply_content(token_text(s.date)),
    }
}

/// The length in seconds of the pause before teardown.
pub open spec fn cooldown_secs() -> u64 {
    5
}

/// The length in seconds of `delay`.
pub open spec fn delay_secs(config: RunConfigView, delay: Delay) -> u64 {
    match delay {
        Delay::Settle => config.wait_secs,
        Delay::Cooldown => cooldown_secs(),
    }
}

/// The line printed for `notice` in state `s`.
pub open spec fn notice_text(s: ControllerView, notice: Notice) -> Seq<char> {
    match notice {
        Notice::StatBefore => before_line_text(s.before),
        Notice::TargetToken => "=> Target string (today date): "@ + token_text(s.date),
        Notice::ThreadReached => "=> Successfully went to the 签到页面."@,
        Notice::ReplyPageReached => "=> Successfully went to the 回复页面."@,
        Notice::ReplyTyped => "=> Successfully 输入回复信息."@,
        Notice::ReplySubmitted => "=> Successfully 点击回复按钮."@,
        Notice::CheckedIn => "=> Successfully 签到!"@,
        Notice::StatAfter => change_line_text(s.before, s.after),
        Notice::Failure => match s.error {
            Some(error) => error.line_text(),
            None => "=> "@,
        },
        Notice::DriverKilled => "=> Successfully killed chromedriver."@,
        Notice::Farewell => "=> Goodbye!"@,
        Notice::DriverKillFailed => "=> Failed to kill chromedriver: "@ + match s.kill_fault {
            Some(detail) => detail,
            None => Seq::empty(),
        },
    }
}

impl Controller {
    /// The address to send the browser to for `page`, if it has one.
    pub fn address(&self, page: Page) -> (url: Option<String>)
        ensures
            text_of(url) == page_url(self@.config, page),
    {
        match page {
            Page::Login => Some(String::from_str(login_address())),
            Page::Forum => Some(String::from_str(forum_address())),
            Page::Profile => match &self.config.profile_url {
                Some(url) => Some(url.clone()),
                None => None,
            },
        }
    }

    /// The lookup for `element`.
    pub fn selector(&self, element: Element) -> (s: Selector)
        ensures
            s.kind == lookup_kind(element),
            s.value@ == lookup_value(element, token_text(self@.date)),
    {
        let today = token(self.date);
        selector(element, today.as_str())
    }

    /// The text to type for `entry`.
    pub fn entry(&self, entry: Entry) -> (text: String)
        ensures
            text@ == entry_text(self@, entry),
    {
        match entry {
            Entry::Username => self.config.username.clone(),
            Entry::Password => self.config.password.clone(),
            Entry::Reply => {
                let today = token(self.date);
                reply_text(today.as_str())
            },
        }
    }

    /// The length in seconds of `delay`.
    pub fn pause_secs(&self, delay: Delay) -> (secs: u64)
        ensures
            secs == delay_secs(self@.config, delay),
    {
        match delay {
            Delay::Settle => self.config.wait_secs,
            Delay::Cooldown => 5,
        }
    }

    /// The figure that is waiting to be judged.
    pub fn pending_reading(&self) -> (figure: String)
        ensures
            figure@ == self@.reading,
    {
        self.reading.clone()
    }

    /// The line to print for `notice`.
    pub fn notice_line(&self, notice: Notice) -> (line: String)
        ensures
            line@ == notice_text(self@, notice),
    {
        match notice {
            Notice::StatBefore => self.before.before_line(),
            Notice::TargetToken => {
                let mut line = String::from_str("=> Target string (today date): ");
                let today = token(self.date);
                line.append(today.as_str());
                line
            },
            Notice::ThreadReached => String::from_str("=> Successfully went to the 签到页面."),
            Notice::ReplyPageReached => String::from_str("=> Successfully went to the 回复页面."),
            Notice::ReplyTyped => String::from_str("=> Successfully 输入回复信息."),
            Notice::ReplySubmitted => String::from_str("=> Successfully 点击回复按钮."),
            Notice::CheckedIn => String::from_str("=> Successfully 签到!"),
            Notice::StatAfter => self.after.change_line(&self.before),
            Notice::Failure => match &self.error {
                Some(error) => error.line(),
                None => String::from_str("=> "),
            },
            Notice::DriverKilled => String::from_str("=> Successfully killed chromedriver."),
            Notice::Farewell => String::from_str("=> Goodbye!"),
            Notice::DriverKillFailed => {
                let mut line = String::from_str("=> Failed to kill chromedriver: ");
                match &self.kill_fault {
                    Some(detail) => {
                        line.append(detail.as_str());
                    },
                    None => {
                        assert(line@ + Seq::<char>::empty() =~= line@);
                    },
                }
                line
            },
        }
    }

    /// How the run stands: the error that it ends with, or none so far.
    pub fn verdict(&self) -> (r: Result<(), RunError>)
        ensures
            match r {
                Ok(_) => self@.error is None,
                Err(error) => self@.error == Some(error@),
            },
    {
        match &self.error {
            Some(error) => Err(error.clone()),
            None => Ok(()),
        }
    }
}

} // verus!
