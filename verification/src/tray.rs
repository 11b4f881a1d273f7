//! The tray's side of the system: the actions its execution context may
//! enqueue for the state owner, and the presentation model behind the
//! tray icon (label, status, tooltip, menu wording).
//!
//! The tray protocol binding itself lives outside the library; it keeps a
//! `TimerTray` value and renders whatever these functions compute.

use vstd::prelude::*;
use vstd::string::StringExecFns;

verus! {

/// An intent produced in the tray's execution context and consumed, in
/// FIFO order, by the thread that owns the timer state.
#[derive(Clone, Copy, Debug, PartialEq, Eq, Structural)]
pub enum TrayAction {
    /// Flip whether the countdown is running.
    ToggleRunning,
    /// Make the alert window visible; no state change.
    ShowAlarm,
    /// Terminal: stop ticking and shut the process down.
    Quit,
}

/// The status the tray icon advertises.
#[derive(Clone, Copy, Debug, PartialEq, Eq, Structural)]
pub enum TrayStatus {
    /// The countdown is running.
    Active,
    /// The countdown is paused and wants the user's eye.
    NeedsAttention,
}

/// The tray title: the application name with the remaining time in
/// parentheses.
pub open spec fn spec_title(label: Seq<char>) -> Seq<char> {
    "tytimer ("@ + label + ")"@
}

/// The tooltip body: the word "Remaining" followed by the label.
pub open spec fn spec_tool_tip_description(label: Seq<char>) -> Seq<char> {
    "Remaining "@ + label
}

/// The presentation state mirrored into the tray icon: the last label
/// pushed by the state owner and whether the countdown was running then.
#[derive(Debug)]
pub struct TimerTray {
    /// The remaining time as last rendered, in clock form.
    pub remaining_label: String,
    /// Whether the countdown was running at the last push.
    pub running: bool,
}

impl TimerTray {
    /// A fresh tray model, before the first push: a placeholder label and
    /// a running countdown, matching the initial timer state.
    pub fn new() -> (t: TimerTray)
        ensures
            t.remaining_label@ == "--:--"@,
            t.running,
    {
        TimerTray { remaining_label: String::from_str("--:--"), running: true }
    }

    /// Takes over the snapshot the state owner pushed.
    pub fn set_state(&mut self, label: &str, running: bool)
        ensures
            final(self).remaining_label@ == label@,
            final(self).running == running,
    {
        self.remaining_label = label.to_owned();
        self.running = running;
    }

    /// Flips the running flag the menu shows, as the pause/resume menu
    /// entry does before its action reaches the state owner.
    pub fn toggle_running(&mut self)
        ensures
            final(self).running == !old(self).running,
            final(self).remaining_label == old(self).remaining_label,
    {
        self.running = !self.running;
    }

    /// The identifier the tray protocol files this icon under.
    pub fn id(&self) -> (r: String)
        ensures
            r@ == "tytimer"@,
    {
        String::from_str("tytimer")
    }

    /// The icon name the tray shows.
    pub fn icon_name(&self) -> (r: String)
        ensures
            r@ == "alarm-symbolic"@,
    {
        String::from_str("alarm-symbolic")
    }

    /// The tray title, carrying the remaining time.
    pub fn title(&self) -> (r: String)
        ensures
            r@ == spec_title(self.remaining_label@),
    {
        let mut out: String = String::from_str("tytimer (");
        out.append(self.remaining_label.as_str());
        out.append(")");
        proof {
            assert(out@ =~= spec_title(self.remaining_label@));
        }
        out
    }

    /// The tooltip body, carrying the remaining time.
    pub fn tool_tip_description(&self) -> (r: String)
        ensures
            r@ == spec_tool_tip_description(self.remaining_label@),
    {
        let mut out: String = String::from_str("Remaining ");
        out.append(self.remaining_label.as_str());
        proof {
            assert(out@ =~= spec_tool_tip_description(self.remaining_label@));
        }
        out
    }

    /// The advertised status: active while running, attention-seeking
    /// while paused.
    pub fn status(&self) -> (r: TrayStatus)
        ensures
            r == if self.running {
                TrayStatus::Active
            } else {
                TrayStatus::NeedsAttention
            },
    {
        if self.running {
            TrayStatus::Active
        } else {
            TrayStatus::NeedsAttention
        }
    }

    /// The wording of the pause/resume menu entry.
    pub fn pause_menu_label(&self) -> (r: &'static str)
        ensures
            self.running ==> r@ == "Pause"@,
            !self.running ==> r@ == "Resume"@,
    {
        if self.running {
            "Pause"
        } else {
            "Resume"
        }
    }
}

} // verus!
