//! The fixed layout of the forum: its addresses, the elements the workflow
//! uses and how each one is looked up.

use vstd::prelude::*;
use vstd::string::StringExecFns;
use crate::locator::{selector_text, thread_selector};
use crate::plan::Element;

verus! {

/// How an element is looked up.
#[derive(Clone, Copy, Debug, PartialEq, Eq, Structural)]
pub enum LookupKind {
    /// By its identifier.
    Id,
    /// By a structural selector.
    Css,
}

/// A lookup for one element.
#[derive(Debug)]
pub struct Selector {
    pub kind: LookupKind,
    pub value: String,
}

/// The address of the login page.
pub open spec fn login_url() -> Seq<char> {
    "https://sstm.moe/login"@
}

/// The address of the forum section that holds the check-in threads.
pub open spec fn forum_url() -> Seq<char> {
    "https://sstm.moe/forum/72-%E5%90%8C%E7%9B%9F%E7%AD%BE%E5%88%B0%E5%8C%BA/"@
}

/// The script that scrolls the page to its end.
pub open spec fn scroll_script_text() -> Seq<char> {
    "window.scrollTo(0, document.body.scrollHeight);"@
}

/// How `element` is looked up.
pub open spec fn lookup_kind(element: Element) -> LookupKind {
    match element {
        Element::UsernameField | Element::PasswordField | Element::SignInButton => LookupKind::Id,
        _ => LookupKind::Css,
    }
}

/// What `element` is looked up by, on the day named by `token`.
pub open spec fn lookup_value(element: Element, token: Seq<char>) -> Seq<char> {
    match element {
        Element::UsernameField => "auth"@,
        Element::PasswordField => "password"@,
        Element::SignInButton => "elSignIn_submit"@,
        Element::StatDisplay =>
            "#elProfileInfoColumn > div > div:nth-child(4) > div > ul > li:nth-child(1) > span.ipsDataItem_main"@,
        Element::TodayThread => selector_text(token),
        Element::ReplyPageLink => "#ipsLayout_mainArea > div.ipsClearfix > ul > li > span > a"@,
        Element::ReplyEditor => "#cke_1_contents > div"@,
        Element::SubmitReply =>
            "#comments > div.cTopicPostArea.ipsBox.ipsResponsive_pull.ipsPadding.ipsSpacer_top > form > div > div.ipsComposeArea_editor > ul > li:nth-child(2) > button"@,
    }
}

/// The address of the login page.
pub fn login_address() -> (url: &'static str)
    ensures
        url@ == login_url(),
{
    "https://sstm.moe/login"
}

/// The address of the forum section that holds the check-in threads.
pub fn forum_address() -> (url: &'static str)
    ensures
        url@ == forum_url(),
{
    "https://sstm.moe/forum/72-%E5%90%8C%E7%9B%9F%E7%AD%BE%E5%88%B0%E5%8C%BA/"
}

/// The script that scrolls the page to its end.
pub fn scroll_script() -> (code: &'static str)
    ensures
        code@ == scroll_script_text(),
{
    "window.scrollTo(0, document.body.scrollHeight);"
}

/// The lookup for `element` on the day named by `token`.
pub fn selector(element: Element, token: &str) -> (s: Selector)
    ensures
        s.kind == lookup_kind(element),
        s.value@ == lookup_value(element, token@),
{
    match element {
        Element::UsernameField => Selector { kind: LookupKind::Id, value: String::from_str("auth") },
        Element::PasswordField => Selector {
            kind: LookupKind::Id,
            value: String::from_str("password"),
        },
        Element::SignInButton => Selector {
            kind: LookupKind::Id,
            value: String::from_str("elSignIn_submit"),
        },
        Element::StatDisplay => Selector {
            kind: LookupKind::Css,
            value: String::from_str(
                "#elProfileInfoColumn > div > div:nth-child(4) > div > ul > li:nth-child(1) > span.ipsDataItem_main",
            ),
        },
        Element::TodayThread => Selector { kind: LookupKind::Css, value: thread_selector(token) },
        Element::ReplyPageLink => Selector {
            kind: LookupKind::Css,
            value: String::from_str("#ipsLayout_mainArea > div.ipsClearfix > ul > li > span > a"),
        },
        Element::ReplyEditor => Selector {
            kind: LookupKind::Css,
            value: String::from_str("#cke_1_contents > div"),
        },
        Element::SubmitReply => Selector {
            kind: LookupKind::Css,
            value: String::from_str(
                "#comments > div.cTopicPostArea.ipsBox.ipsResponsive_pull.ipsPadding.ipsSpacer_top > form > div > div.ipsComposeArea_editor > ul > li:nth-child(2) > button",
            ),
        },
    }
}

} // verus!
