//! What the overlay tells its user interface.

use vstd::prelude::*;

verus! {

/// A notification for the user interface.
#[derive(Clone, Debug, PartialEq, Eq)]
pub enum Notification {
    /// The overall HDR state changed to `enabled`.
    HdrStateChanged { enabled: bool },
    /// The pointer left the overlay's window.
    MouseLeftWindow,
    /// The menu asks to flip "always on top".
    MenuTogglePin,
    /// The menu asks to flip "allow drag".
    MenuToggleDrag,
    /// The overlay moved to the monitor of this name.
    MonitorChanged { name: String },
}

impl Notification {
    /// The name under which the notification is sent.
    pub open spec fn spec_event_name(self) -> Seq<char> {
        match self {
            Notification::HdrStateChanged { .. } => "hdr-state-changed"@,
            Notification::MouseLeftWindow => "mouse-left-window"@,
            Notification::MenuTogglePin => "menu-toggle-pin"@,
            Notification::MenuToggleDrag => "menu-toggle-drag"@,
            Notification::MonitorChanged { .. } => "monitor-changed"@,
        }
    }

    pub fn event_name(&self) -> (name: &'static str)
        ensures
            name@ == self.spec_event_name(),
    {
        match self {
            Notification::HdrStateChanged { .. } => "hdr-state-changed",
            Notification::MouseLeftWindow => "mouse-left-window",
            Notification::MenuTogglePin => "menu-toggle-pin",
            Notification::MenuToggleDrag => "menu-toggle-drag",
            Notification::MonitorChanged { .. } => "monitor-changed",
        }
    }
}

/// The notification for an announcement of the poller, if it made one.
pub fn hdr_notification(announce: Option<bool>) -> (n: Option<Notification>)
    ensures
        n == (match announce {
            Some(enabled) => Some(Notification::HdrStateChanged { enabled }),
            None => None,
        }),
{
    match announce {
        Some(enabled) => Some(Notification::HdrStateChanged { enabled }),
        None => None,
    }
}

/// The notification for a sample of the pointer tracker, if the pointer left.
pub fn pointer_notification(left: bool) -> (n: Option<Notification>)
    ensures
        n == (if left {
            Some(Notification::MouseLeftWindow)
        } else {
            None
        }),
{
    if left {
        Some(Notification::MouseLeftWindow)
    } else {
        None
    }
}

} // verus!
