//! The application: its windows and tray icons, when it quits, and the pump
//! that runs queued commands on each tick of its timer.
use vstd::prelude::*;

verus! {

/// Whether the application quits: once it has no window and no tray icon left.
pub fn should_quit(windows: usize, trays: usize) -> (r: bool)
    ensures
        r == (windows < 1 && trays < 1),
{
    windows < 1 && trays < 1
}

/// The pause between ticks, from the timer's interval: a negative interval
/// counts as none.
pub fn frame_sleep(interval: i32) -> (r: u32)
    ensures
        interval > -1 ==> r == interval,
        interval <= -1 ==> r == 0,
{
    if interval > -1 {
        interval as u32
    } else {
        0
    }
}

/// The timer interval for a pause between ticks, as the timer takes it.
pub fn timer_interval(sleep: u32) -> (r: i32)
    ensures
        r == sleep as i32,
{
    sleep as i32
}

/// What the queue gave when the pump asked it for a command.
#[derive(Clone, Copy, Debug, PartialEq, Eq, Structural)]
pub enum PumpEvent {
    /// A command ran, and asked to run again (`true`) or not.
    Ran(bool),
    /// The queue was empty.
    Empty,
}

/// What the pump does next.
#[derive(Clone, Copy, Debug, PartialEq, Eq, Structural)]
pub enum PumpAction {
    /// Put the command back on the queue, then ask for the next one.
    Requeue,
    /// Ask for the next command.
    Next,
    /// Stop until the next tick.
    Stop,
}

/// The pump of one tick: it runs queued commands until the queue is empty or
/// it has run as many as one tick allows.
pub struct FramePump {
    pub handled: usize,
    pub limit: usize,
}

impl FramePump {
    /// A pump for one tick that runs at most `limit` commands.
    pub fn new(limit: usize) -> (r: Self)
        ensures
            r.handled == 0,
            r.limit == limit,
    {
        FramePump { handled: 0, limit }
    }

    /// Whether the pump asks the queue for another command.
    pub fn wants_more(&self) -> (r: bool)
        ensures
            r == (self.handled < self.limit),
    {
        self.handled < self.limit
    }

    /// Takes in what the queue gave: a command that ran counts against the
    /// limit and goes back on the queue if it asked to; an empty queue stops
    /// the pump.
    pub fn on_event(&mut self, event: PumpEvent) -> (r: PumpAction)
        requires
            old(self).handled < old(self).limit,
        ensures
            final(self).limit == old(self).limit,
            event == PumpEvent::Empty ==> r == PumpAction::Stop && final(self).handled == old(
                self,
            ).handled,
            event == PumpEvent::Ran(true) ==> r == PumpAction::Requeue && final(self).handled
                == old(self).handled + 1,
            event == PumpEvent::Ran(false) ==> r == PumpAction::Next && final(self).handled
                == old(self).handled + 1,
    {
        match event {
            PumpEvent::Ran(again) => {
                self.handled = self.handled + 1;
                if again {
                    PumpAction::Requeue
                } else {
                    PumpAction::Next
                }
            },
            PumpEvent::Empty => PumpAction::Stop,
        }
    }
}

/// How a close request ends.
#[derive(Clone, Copy, Debug, PartialEq, Eq, Structural)]
pub enum CloseOutcome {
    /// The close callback refused: the window or tray icon stays.
    Vetoed,
    /// It closes, and leaves the application's roots.
    Closing,
}

/// Whether closing asks the close callback: only when callbacks are not
/// skipped and there is one.
pub fn consults_callback(skip_callbacks: bool, has_callback: bool) -> (r: bool)
    ensures
        r == (!skip_callbacks && has_callback),
{
    !skip_callbacks && has_callback
}

/// How a close request ends, from the callback's answer when it was asked: it
/// is vetoed only when callbacks are not skipped and the callback said no.
pub fn close_outcome(skip_callbacks: bool, answer: Option<bool>) -> (r: CloseOutcome)
    ensures
        r == CloseOutcome::Vetoed <==> (!skip_callbacks && answer == Some(false)),
{
    if !skip_callbacks {
        match answer {
            Some(false) => {
                return CloseOutcome::Vetoed;
            },
            _ => {},
        }
    }
    CloseOutcome::Closing
}

} // verus!
