//! The debounced switch between aligning the overlay and sharing through it.

use vstd::prelude::*;

verus! {

/// Least time, in milliseconds, between two accepted mode switches.
pub const DEBOUNCE_MS: u64 = 300;

/// The overlay's two modes.
#[derive(Clone, Copy, Debug, PartialEq, Eq, Structural)]
pub enum Mode {
    /// Visibly framed, on top, not hidden from capture.
    Alignment,
    /// Borderless, at the bottom, hidden from capture.
    Share,
}

/// Where the window stands among the others.
#[derive(Clone, Copy, Debug, PartialEq, Eq, Structural)]
pub enum Stacking {
    TopMost,
    BottomMost,
}

/// The window attributes that a mode asks the windowing system for.
#[derive(Clone, Copy, Debug, PartialEq, Eq, Structural)]
pub struct WindowAttributes {
    pub decorations: bool,
    pub stacking: Stacking,
    pub content_protected: bool,
}

/// The attributes that belong to `mode`.
pub open spec fn attributes_spec(mode: Mode) -> WindowAttributes {
    match mode {
        Mode::Alignment => WindowAttributes {
            decorations: true,
            stacking: Stacking::TopMost,
            content_protected: false,
        },
        Mode::Share => WindowAttributes {
            decorations: false,
            stacking: Stacking::BottomMost,
            content_protected: true,
        },
    }
}

/// The attributes that belong to `mode`.
pub fn attributes_of(mode: Mode) -> (a: WindowAttributes)
    ensures
        a == attributes_spec(mode),
{
    match mode {
        Mode::Alignment => WindowAttributes {
            decorations: true,
            stacking: Stacking::TopMost,
            content_protected: false,
        },
        Mode::Share => WindowAttributes {
            decorations: false,
            stacking: Stacking::BottomMost,
            content_protected: true,
        },
    }
}

/// The other mode.
pub open spec fn flipped(mode: Mode) -> Mode {
    match mode {
        Mode::Alignment => Mode::Share,
        Mode::Share => Mode::Alignment,
    }
}

/// The current mode and the time of the last accepted switch, if any.
#[derive(Clone, Copy, Debug, PartialEq, Eq, Structural)]
pub struct ModeController {
    pub mode: Mode,
    pub last_switch_ms: Option<u64>,
}

impl ModeController {
    /// A trigger at `now_ms` is honoured: no switch yet, or at least the
    /// debounce window has passed since the last one.
    pub open spec fn accepts(self, now_ms: u64) -> bool {
        match self.last_switch_ms {
            None => true,
            Some(last) => now_ms >= last + DEBOUNCE_MS,
        }
    }

    /// The controller after a trigger at `now_ms`.
    pub open spec fn triggered(self, now_ms: u64) -> ModeController {
        if self.accepts(now_ms) {
            ModeController { mode: flipped(self.mode), last_switch_ms: Some(now_ms) }
        } else {
            self
        }
    }

    /// Alignment mode, with no switch yet.
    pub open spec fn new_spec() -> ModeController {
        ModeController { mode: Mode::Alignment, last_switch_ms: None }
    }

    /// Starts in alignment mode, with no switch yet.
    pub fn new() -> (c: Self)
        ensures
            c == ModeController::new_spec(),
    {
        ModeController { mode: Mode::Alignment, last_switch_ms: None }
    }

    /// A toggle was requested at `now_ms`.  Within the debounce window of the
    /// last switch it is ignored and `None` comes back; otherwise the mode
    /// flips and the attributes of the new mode come back, to be applied.
    pub fn on_trigger(&mut self, now_ms: u64) -> (applied: Option<WindowAttributes>)
        ensures
            *final(self) == old(self).triggered(now_ms),
            old(self).accepts(now_ms) ==> applied == Some(attributes_spec(final(self).mode)),
            !old(self).accepts(now_ms) ==> applied is None,
    {
        let accepted = match self.last_switch_ms {
            None => true,
            Some(last) => last <= u64::MAX - DEBOUNCE_MS && now_ms >= last + DEBOUNCE_MS,
        };
        if accepted {
            self.mode = match self.mode {
                Mode::Alignment => Mode::Share,
                Mode::Share => Mode::Alignment,
            };
            self.last_switch_ms = Some(now_ms);
            Some(attributes_of(self.mode))
        } else {
            None
        }
    }
}

/// Number of switches that two triggers, at `t1` then `t2`, cause.
pub open spec fn switches(c: ModeController, t1: u64, t2: u64) -> int {
    let c1 = c.triggered(t1);
    let c2 = c1.triggered(t2);
    (if c1 != c { 1int } else { 0int }) + (if c2 != c1 { 1int } else { 0int })
}

/// Of two triggers where the first is honoured, the second causes a switch
/// exactly when it comes at least the debounce window later: closer together
/// they switch once, further apart twice (back to the starting mode).
pub proof fn lemma_debounce(c: ModeController, t1: u64, t2: u64)
    requires
        c.accepts(t1),
        t1 <= t2,
    ensures
        t2 - t1 < DEBOUNCE_MS ==> switches(c, t1, t2) == 1 && c.triggered(t1).triggered(t2).mode
            == flipped(c.mode),
        t2 - t1 >= DEBOUNCE_MS ==> switches(c, t1, t2) == 2 && c.triggered(t1).triggered(t2).mode
            == c.mode,
{
}

} // verus!
