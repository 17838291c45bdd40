//! The reputation figure shown on the profile page: a reading that may be
//! absent, and the lines that report it.

use vstd::prelude::*;
use vstd::string::StringExecFns;
use crate::text::{trim_end, trim_end_matches};

verus! {

/// A reputation reading. A measured reading carries the figure as it is shown
/// to the operator; an absent one stands for a run without a profile address
/// or a display that held no figure.
#[derive(Debug)]
pub enum StatValue {
    Absent,
    Measured(String),
}

/// The mathematical content of [`StatValue`].
pub ghost enum StatView {
    Absent,
    Measured(Seq<char>),
}

impl View for StatValue {
    type V = StatView;

    open spec fn view(&self) -> StatView {
        match self {
            StatValue::Absent => StatView::Absent,
            StatValue::Measured(figure) => StatView::Measured(figure@),
        }
    }
}

impl Clone for StatValue {
    fn clone(&self) -> (copy: Self)
        ensures
            copy@ == self@,
    {
        match self {
            StatValue::Absent => StatValue::Absent,
            StatValue::Measured(figure) => StatValue::Measured(figure.clone()),
        }
    }
}

/// The unit that follows the figure on the page.
pub open spec fn unit_suffix() -> Seq<char> {
    " J"@
}

/// What stands for an absent reading where a figure is printed.
pub open spec fn absent_figure() -> Seq<char> {
    "-1"@
}

/// The line that says no reading could be had.
pub open spec fn unavailable_line() -> Seq<char> {
    "=> 没有设置SSTM_PROFILE_URL，无法获取当前节操。"@
}

/// The figure printed for a reading.
pub open spec fn figure_text(value: StatView) -> Seq<char> {
    match value {
        StatView::Absent => absent_figure(),
        StatView::Measured(figure) => figure,
    }
}

/// The line that reports the reading taken before the check-in.
pub open spec fn before_line_text(before: StatView) -> Seq<char> {
    match before {
        StatView::Absent => unavailable_line(),
        StatView::Measured(figure) => "=> Current 节操 is "@ + figure + "."@,
    }
}

/// The line that reports how the reading changed over the check-in.
pub open spec fn change_line_text(before: StatView, after: StatView) -> Seq<char> {
    match after {
        StatView::Absent => unavailable_line(),
        StatView::Measured(figure) => "=> 节操从 "@ + figure_text(before) + " 变为 "@ + figure
            + "."@,
    }
}

/// Takes the unit off the text of the reputation display.
pub fn strip_unit(text: &str) -> (figure: String)
    ensures
        figure@ == trim_end(text@, unit_suffix()),
{
    trim_end_matches(text, " J")
}

impl StatValue {
    /// Whether a figure was measured.
    pub fn is_measured(&self) -> (yes: bool)
        ensures
            yes == (self@ is Measured),
    {
        match self {
            StatValue::Absent => false,
            StatValue::Measured(_) => true,
        }
    }

    /// The figure printed for this reading.
    pub fn figure(&self) -> (text: String)
        ensures
            text@ == figure_text(self@),
    {
        match self {
            StatValue::Absent => String::from_str("-1"),
            StatValue::Measured(figure) => figure.clone(),
        }
    }

    /// The line that reports this reading, taken before the check-in.
    pub fn before_line(&self) -> (line: String)
        ensures
            line@ == before_line_text(self@),
    {
        match self {
            StatValue::Absent => String::from_str("=> 没有设置SSTM_PROFILE_URL，无法获取当前节操。"),
            StatValue::Measured(figure) => {
                let mut line = String::from_str("=> Current 节操 is ");
                line.append(figure.as_str());
                line.append(".");
                line
            },
        }
    }

    /// The line that reports the change from `before` to this reading.
    pub fn change_line(&self, before: &StatValue) -> (line: String)
        ensures
            line@ == change_line_text(before@, self@),
    {
        match self {
            StatValue::Absent => String::from_str("=> 没有设置SSTM_PROFILE_URL，无法获取当前节操。"),
            StatValue::Measured(figure) => {
                let mut line = String::from_str("=> 节操从 ");
                let earlier = before.figure();
                line.append(earlier.as_str());
                line.append(" 变为 ");
                line.append(figure.as_str());
                line.append(".");
                line
            },
        }
    }
}

} // verus!
