//! The notifications sent to the user interface.

use vstd::prelude::*;

verus! {

/// A state change of the browser subprocess that the user interface is told
/// about. Delivery is best effort: a failed emission is never retried and
/// never changes what the supervisor does next.
#[derive(Debug, Clone, Copy, PartialEq, Eq, Structural)]
pub enum ProcessEvent {
    /// The browser is about to be started.
    Opening,
    /// No browser is running any more: it may be started again.
    Enabled,
    /// No browser binary was found on this system.
    ChromeMissing,
}

impl ProcessEvent {
    /// The channel name of the event.
    pub open spec fn spec_name(self) -> Seq<char> {
        match self {
            ProcessEvent::Opening => "browser-opening"@,
            ProcessEvent::Enabled => "enableBrowser"@,
            ProcessEvent::ChromeMissing => "chrome-error"@,
        }
    }

    /// The text sent along with the event, if it carries one.
    pub open spec fn spec_payload(self) -> Option<Seq<char>> {
        match self {
            ProcessEvent::Opening => None,
            ProcessEvent::Enabled => None,
            ProcessEvent::ChromeMissing => Some(
                "Google Chrome could not be found on this system."@,
            ),
        }
    }

    pub fn name(&self) -> (name: &'static str)
        ensures
            name@ == self.spec_name(),
    {
        match self {
            ProcessEvent::Opening => "browser-opening",
            ProcessEvent::Enabled => "enableBrowser",
            ProcessEvent::ChromeMissing => "chrome-error",
        }
    }

    pub fn payload(&self) -> (text: Option<&'static str>)
        ensures
            text is Some <==> self.spec_payload() is Some,
            text matches Some(t) ==> Some(t@) == self.spec_payload(),
    {
        match self {
            ProcessEvent::Opening => None,
            ProcessEvent::Enabled => None,
            ProcessEvent::ChromeMissing => Some("Google Chrome could not be found on this system."),
        }
    }
}

/// What the user interface is told once at startup: that the browser binary
/// is missing, when the search for it found nothing.
pub fn startup_event(chrome_exists: bool) -> (event: Option<ProcessEvent>)
    ensures
        event == if chrome_exists {
            None::<ProcessEvent>
        } else {
            Some(ProcessEvent::ChromeMissing)
        },
{
    if chrome_exists {
        None
    } else {
        Some(ProcessEvent::ChromeMissing)
    }
}

} // verus!
