//! The desktop notifications that go with the lifecycle events.

use vstd::prelude::*;
use crate::state::State;

verus! {

/// The application name and the icon under which every notice is shown.
pub const APP_NAME: &'static str = "pomobar";

/// How pressing a notice is.
#[derive(Debug, Clone, Copy, PartialEq, Eq, Structural)]
pub enum Urgency {
    Low,
    Critical,
}

/// What a desktop notification shows.
#[derive(Debug, Clone, Copy, PartialEq, Eq)]
pub struct Notice {
    pub summary: &'static str,
    pub urgency: Urgency,
    pub appname: &'static str,
    pub icon: &'static str,
}

/// The mathematical value of a notice.
pub struct NoticeText {
    pub summary: Seq<char>,
    pub urgency: Urgency,
    pub appname: Seq<char>,
    pub icon: Seq<char>,
}

impl View for Notice {
    type V = NoticeText;

    open spec fn view(&self) -> NoticeText {
        NoticeText {
            summary: self.summary@,
            urgency: self.urgency,
            appname: self.appname@,
            icon: self.icon@,
        }
    }
}

impl NoticeText {
    /// A notice of this application with the given summary and urgency.
    pub open spec fn of(summary: Seq<char>, urgency: Urgency) -> NoticeText {
        NoticeText { summary, urgency, appname: APP_NAME@, icon: APP_NAME@ }
    }

    /// Shown when work starts.
    pub open spec fn start() -> NoticeText {
        NoticeText::of("🎯 It's time to focus!"@, Urgency::Low)
    }

    /// Shown when the session is paused.
    pub open spec fn pause() -> NoticeText {
        NoticeText::of("🔴 Paused the pomodoro!"@, Urgency::Low)
    }

    /// Shown when a short break starts.
    pub open spec fn take_break() -> NoticeText {
        NoticeText::of("☕ It's time to take break!"@, Urgency::Critical)
    }

    /// Shown when the long break starts.
    pub open spec fn take_long_break() -> NoticeText {
        NoticeText::of("🌿 It's time to take stretch!"@, Urgency::Critical)
    }

    /// Shown when the session is reset.
    pub open spec fn reset() -> NoticeText {
        NoticeText::of("🔴 Reset the pomodoro!"@, Urgency::Low)
    }
}

impl Notice {
    fn of(summary: &'static str, urgency: Urgency) -> (notice: Notice)
        ensures
            notice@ == NoticeText::of(summary@, urgency),
    {
        Notice { summary, urgency, appname: APP_NAME, icon: APP_NAME }
    }
}

impl State {
    /// The notice for the start of work.
    pub fn notify_when_start() -> (notice: Notice)
        ensures
            notice@ == NoticeText::start(),
    {
        Notice::of("🎯 It's time to focus!", Urgency::Low)
    }

    /// The notice for a pause.
    pub fn notify_when_pause() -> (notice: Notice)
        ensures
            notice@ == NoticeText::pause(),
    {
        Notice::of("🔴 Paused the pomodoro!", Urgency::Low)
    }

    /// The notice for the start of a short break.
    pub fn notify_when_take_break() -> (notice: Notice)
        ensures
            notice@ == NoticeText::take_break(),
    {
        Notice::of("☕ It's time to take break!", Urgency::Critical)
    }

    /// The notice for the start of the long break.
    pub fn notify_when_take_long_break() -> (notice: Notice)
        ensures
            notice@ == NoticeText::take_long_break(),
    {
        Notice::of("🌿 It's time to take stretch!", Urgency::Critical)
    }

    /// The notice for a reset.
    pub fn notify_when_reset() -> (notice: Notice)
        ensures
            notice@ == NoticeText::reset(),
    {
        Notice::of("🔴 Reset the pomodoro!", Urgency::Low)
    }
}

} // verus!
