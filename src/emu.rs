//! The decisions of the host presentation loop: what each window or key
//! event does to the run.

use vstd::prelude::*;

verus! {

/// What the host saw.
#[derive(Clone, Copy, Debug, PartialEq, Eq, Structural)]
pub enum HostEvent {
    /// The window was closed.
    Quit,
    /// The Escape key went down.
    Escape,
    /// The Space key went down.
    Space,
    /// Anything else.
    Other,
}

/// What the host must do next.
#[derive(Clone, Copy, Debug, PartialEq, Eq, Structural)]
pub enum HostAction {
    Exit,
    Continue,
}

/// The host loop's own state.
pub struct Emu {
    pub paused: bool,
}

impl Emu {
    pub fn new() -> (r: Emu)
        ensures
            !r.paused,
    {
        Emu { paused: false }
    }

    /// Closing the window or Escape ends the run; Space toggles the pause;
    /// anything else is ignored.
    pub fn handle_event(&mut self, event: HostEvent) -> (r: HostAction)
        ensures
            r == (if event == HostEvent::Quit || event == HostEvent::Escape {
                HostAction::Exit
            } else {
                HostAction::Continue
            }),
            final(self).paused == (if event == HostEvent::Space {
                !old(self).paused
            } else {
                old(self).paused
            }),
    {
        match event {
            HostEvent::Quit | HostEvent::Escape => HostAction::Exit,
            HostEvent::Space => {
                self.paused = !self.paused;
                HostAction::Continue
            },
            HostEvent::Other => HostAction::Continue,
        }
    }

    /// Whether the machine should be stepped now.
    pub fn running(&self) -> (r: bool)
        ensures
            r == !self.paused,
    {
        !self.paused
    }
}

} // verus!
