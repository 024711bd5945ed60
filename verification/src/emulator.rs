//! Pacing of the machine against the host's clock, and the host's window
//! events that start and stop it.
//!
//! The host owns the window and the clock. It hands each window event and
//! each span of elapsed time to a `RunState`, which says what to do: close,
//! restart the timer, or run so many CPU cycles.
use vstd::prelude::*;

verus! {

/// Duration of one CPU cycle in nanoseconds.
pub const CPU_CYCLE_NANOSECONDS: i64 = 559;

/// Width of the picture in pixels.
pub const NES_VIDEO_WIDTH: u32 = 256;

/// Height of the picture in pixels.
pub const NES_VIDEO_HEIGHT: u32 = 240;

/// Host pixels per pixel of the picture, in each direction.
pub const SCREEN_SCALE: u32 = 2;

/// What the host's window reports.
#[derive(Clone, Copy, Debug, PartialEq, Eq, Structural)]
pub enum HostEvent {
    /// The window was asked to close.
    Closed,
    /// The escape key was pressed.
    Escape,
    /// The pause key was pressed.
    TogglePause,
    /// The window gained the focus.
    GainedFocus,
    /// The window lost the focus.
    LostFocus,
}

/// What the host is to do after an event.
#[derive(Clone, Copy, Debug, PartialEq, Eq, Structural)]
pub enum HostAction {
    /// Close the window.
    Close,
    /// Forget the time that passed while the machine stood still.
    RestartTimer,
    /// Nothing.
    Continue,
}

/// Whether the machine runs, and the time it has not yet used.
#[derive(Clone, Copy, Debug, PartialEq, Eq, Structural)]
pub struct RunState {
    /// The window has the focus.
    pub focus: bool,
    /// The user paused the machine.
    pub pause: bool,
    /// Nanoseconds that passed and were not yet spent on CPU cycles.
    pub elapsed: i64,
}

/// The state after an event.
pub open spec fn after_event(s: RunState, event: HostEvent) -> RunState {
    match event {
        HostEvent::TogglePause => RunState { pause: !s.pause, ..s },
        HostEvent::GainedFocus => RunState { focus: true, ..s },
        HostEvent::LostFocus => RunState { focus: false, ..s },
        _ => s,
    }
}

/// What the host is to do after an event: close on `Closed` and `Escape`,
/// restart the timer when the machine starts running again.
pub open spec fn action_for(s: RunState, event: HostEvent) -> HostAction {
    match event {
        HostEvent::Closed => HostAction::Close,
        HostEvent::Escape => HostAction::Close,
        HostEvent::TogglePause => if s.pause {
            HostAction::RestartTimer
        } else {
            HostAction::Continue
        },
        HostEvent::GainedFocus => HostAction::RestartTimer,
        HostEvent::LostFocus => HostAction::Continue,
    }
}

/// The unused time after `nanoseconds` more have passed; it stops growing at
/// the largest value it can hold, and at the smallest.
pub open spec fn after_time(elapsed: i64, nanoseconds: i64) -> i64 {
    if elapsed + nanoseconds > i64::MAX {
        i64::MAX
    } else if elapsed + nanoseconds < i64::MIN {
        i64::MIN
    } else {
        (elapsed + nanoseconds) as i64
    }
}

impl RunState {
    /// A machine that runs and has no time to spend yet.
    pub fn new() -> (s: RunState)
        ensures
            s == (RunState { focus: true, pause: false, elapsed: 0 }),
    {
        RunState { focus: true, pause: false, elapsed: 0 }
    }

    /// Takes notice of a window event and says what the host is to do.
    pub fn handle(&mut self, event: HostEvent) -> (action: HostAction)
        ensures
            *final(self) == after_event(*old(self), event),
            action == action_for(*old(self), event),
    {
        match event {
            HostEvent::Closed => HostAction::Close,
            HostEvent::Escape => HostAction::Close,
            HostEvent::TogglePause => {
                self.pause = !self.pause;
                if !self.pause {
                    HostAction::RestartTimer
                } else {
                    HostAction::Continue
                }
            },
            HostEvent::GainedFocus => {
                self.focus = true;
                HostAction::RestartTimer
            },
            HostEvent::LostFocus => {
                self.focus = false;
                HostAction::Continue
            },
        }
    }

    /// Whether the machine runs: it has the focus and is not paused.
    pub fn is_running(&self) -> (running: bool)
        ensures
            running == (self.focus && !self.pause),
    {
        self.focus && !self.pause
    }

    /// Adds time that has passed.
    pub fn advance(&mut self, nanoseconds: i64)
        ensures
            *final(self) == (RunState {
                elapsed: after_time(old(self).elapsed, nanoseconds),
                ..*old(self)
            }),
    {
        self.elapsed = match self.elapsed.checked_add(nanoseconds) {
            Some(sum) => sum,
            None => if nanoseconds > 0 {
                i64::MAX
            } else {
                i64::MIN
            },
        };
    }

    /// Spends the time of one CPU cycle if more than that is left, and says
    /// whether it did.
    pub fn take_cycle(&mut self) -> (due: bool)
        ensures
            due == (old(self).elapsed > CPU_CYCLE_NANOSECONDS),
            *final(self) == (RunState {
                elapsed: if due {
                    (old(self).elapsed - CPU_CYCLE_NANOSECONDS) as i64
                } else {
                    old(self).elapsed
                },
                ..*old(self)
            }),
    {
        if self.elapsed > CPU_CYCLE_NANOSECONDS {
            self.elapsed = self.elapsed - CPU_CYCLE_NANOSECONDS;
            true
        } else {
            false
        }
    }
}

} // verus!
