//! The message box: a modal text with a severity and a row of action buttons.
use vstd::prelude::*;

verus! {

/// How serious a message is.
#[derive(Clone, Copy, Debug, PartialEq, Eq, Structural)]
pub enum MessageSeverity {
    Info,
    Warning,
    Alert,
}

/// The icon a message box shows.
#[derive(Clone, Copy, Debug, PartialEq, Eq, Structural)]
pub enum MessageIcon {
    NoIcon,
    Information,
    Warning,
    Critical,
    Question,
}

/// The icon that stands for a severity.
pub open spec fn icon_of(severity: MessageSeverity) -> MessageIcon {
    match severity {
        MessageSeverity::Info => MessageIcon::Information,
        MessageSeverity::Warning => MessageIcon::Warning,
        MessageSeverity::Alert => MessageIcon::Critical,
    }
}

/// The severity an icon stands for, for the three icons that stand for one.
pub open spec fn severity_of(icon: MessageIcon) -> MessageSeverity {
    match icon {
        MessageIcon::Warning => MessageSeverity::Warning,
        MessageIcon::Critical => MessageSeverity::Alert,
        _ => MessageSeverity::Info,
    }
}

/// The icon a message box of this severity shows.
pub fn severity_to_message_icon(severity: MessageSeverity) -> (r: MessageIcon)
    ensures
        r == icon_of(severity),
        severity == MessageSeverity::Info ==> r == MessageIcon::Information,
        severity == MessageSeverity::Warning ==> r == MessageIcon::Warning,
        severity == MessageSeverity::Alert ==> r == MessageIcon::Critical,
{
    match severity {
        MessageSeverity::Info => MessageIcon::Information,
        MessageSeverity::Warning => MessageIcon::Warning,
        MessageSeverity::Alert => MessageIcon::Critical,
    }
}

/// The severity of a message box from its icon, which must be one that a
/// severity sets.
pub fn message_icon_to_severity(icon: MessageIcon) -> (r: MessageSeverity)
    requires
        icon == MessageIcon::Information || icon == MessageIcon::Warning || icon
            == MessageIcon::Critical,
    ensures
        r == severity_of(icon),
        icon == MessageIcon::Information ==> r == MessageSeverity::Info,
        icon == MessageIcon::Warning ==> r == MessageSeverity::Warning,
        icon == MessageIcon::Critical ==> r == MessageSeverity::Alert,
{
    match icon {
        MessageIcon::Warning => MessageSeverity::Warning,
        MessageIcon::Critical => MessageSeverity::Alert,
        _ => MessageSeverity::Info,
    }
}

/// A law of message boxes: the severity read back from the icon a severity
/// set is that severity.
pub proof fn lemma_severity_round_trip(severity: MessageSeverity)
    ensures
        icon_of(severity) == MessageIcon::Information || icon_of(severity) == MessageIcon::Warning
            || icon_of(severity) == MessageIcon::Critical,
        severity_of(icon_of(severity)) == severity,
{
}

/// Which action the button a message box returned stands for: the code is the
/// action's index, and a code that is negative or past the last action stands
/// for none.
pub fn chosen_action(actions: usize, code: i32) -> (r: Option<usize>)
    ensures
        0 <= code < actions ==> r == Some(code as usize),
        !(0 <= code < actions) ==> r is None,
{
    if code < 0 {
        None
    } else if (code as usize) < actions {
        Some(code as usize)
    } else {
        None
    }
}

/// The message box's own event filter: it lets every event through.
pub fn event_handler(event: crate::control::WidgetEvent) -> (r: bool)
    ensures
        !r,
{
    false
}

} // verus!
