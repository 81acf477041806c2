//! Small pieces of the shell's state: the global shortcut's status, and
//! where the launcher was last placed on which monitor, with the short
//! windows during which moves of the launcher are the shell's own doing.
use crate::clock::{clock_reading, lemma_clock_reading_bound, unix_time_nanos};
use crate::text::owned;
use vstd::prelude::*;

verus! {

/// The default global shortcut.
pub const DEFAULT_ACCELERATOR: &'static str = "CommandOrControl+Space";

/// Whether the global shortcut is registered.
#[derive(Clone, Debug)]
pub struct ShortcutStatus {
    pub accelerator: String,
    pub registered: bool,
    pub error: Option<String>,
}

impl Default for ShortcutStatus {
    fn default() -> (r: Self)
        ensures
            r.accelerator@ == DEFAULT_ACCELERATOR@,
            !r.registered,
            r.error is None,
    {
        ShortcutStatus { accelerator: owned(DEFAULT_ACCELERATOR), registered: false, error: None }
    }
}

/// A monitor, as far as launcher placement tells monitors apart.
#[derive(Clone, Copy, Debug, PartialEq, Eq, Structural)]
pub struct LauncherMonitorFingerprint {
    pub x: i32,
    pub y: i32,
    pub width: i32,
    pub height: i32,
    /// The scale factor in thousandths.
    pub scale_millis: i32,
}

/// A window position in physical pixels.
#[derive(Clone, Copy, Debug, PartialEq, Eq, Structural)]
pub struct LauncherWindowPosition {
    pub x: i32,
    pub y: i32,
}

/// Where the user last left the launcher, and on which monitor.
#[derive(Clone, Copy, Debug, PartialEq, Eq, Structural)]
pub struct LauncherSavedPosition {
    pub monitor: LauncherMonitorFingerprint,
    pub position: LauncherWindowPosition,
}

/// Moves of the launcher this soon after the shell lays it out are the
/// shell's own, in nanoseconds.
pub const PROGRAMMATIC_LAYOUT_NANOS: u64 = 100_000_000;

/// The launcher's remembered position, and until when its moves are the
/// shell's own doing.
#[derive(Clone, Copy, Debug, Default)]
pub struct LauncherPositioningState {
    pub saved_position: Option<LauncherSavedPosition>,
    /// Unix time in nanoseconds before which moves are not remembered.
    pub ignore_moved_until: u64,
}

impl LauncherPositioningState {
    pub fn launcher_saved_position(&self) -> (r: Option<LauncherSavedPosition>)
        ensures
            r == self.saved_position,
    {
        self.saved_position
    }

    pub fn replace_launcher_saved_position(&mut self, saved_position: LauncherSavedPosition)
        ensures
            final(self).saved_position == Some(saved_position),
            final(self).ignore_moved_until == old(self).ignore_moved_until,
    {
        self.saved_position = Some(saved_position);
    }

    pub fn clear_launcher_saved_position(&mut self)
        ensures
            final(self).saved_position is None,
            final(self).ignore_moved_until == old(self).ignore_moved_until,
    {
        self.saved_position = None;
    }

    /// Starts a layout by the shell at time `now`: moves within the next
    /// 100 ms are its own.
    pub fn begin_programmatic_layout_at(&mut self, now: u64)
        ensures
            final(self).ignore_moved_until == if now + PROGRAMMATIC_LAYOUT_NANOS <= u64::MAX {
                (now + PROGRAMMATIC_LAYOUT_NANOS) as u64
            } else {
                u64::MAX
            },
            final(self).saved_position == old(self).saved_position,
    {
        self.ignore_moved_until = now.saturating_add(PROGRAMMATIC_LAYOUT_NANOS);
    }

    /// Whether at time `now` a layout by the shell is still going on.
    pub fn is_programmatic_layout_at(&self, now: u64) -> (r: bool)
        ensures
            r == (self.ignore_moved_until > now),
    {
        self.ignore_moved_until > now
    }

    /// Starts a layout by the shell now: `begin_programmatic_layout_at` at
    /// the clock's current reading.
    pub fn begin_programmatic_layout(&mut self)
        ensures
            exists|now: u64|
                #[trigger] clock_reading(now) && final(self).ignore_moved_until == (now
                    + PROGRAMMATIC_LAYOUT_NANOS) as u64,
            final(self).saved_position == old(self).saved_position,
    {
        let now = unix_time_nanos();
        proof {
            lemma_clock_reading_bound(now);
        }
        self.begin_programmatic_layout_at(now);
    }

    /// Whether a layout by the shell is going on now:
    /// `is_programmatic_layout_at` at the clock's current reading.
    pub fn is_programmatic_layout(&self) -> (r: bool)
        ensures
            exists|now: u64| #[trigger] clock_reading(now) && r == (self.ignore_moved_until > now),
    {
        let now = unix_time_nanos();
        self.is_programmatic_layout_at(now)
    }
}

/// A layout begun at `now` covers every moment before `now + 100 ms`, and
/// no later one.
pub proof fn law_programmatic_layout_window(now: u64, t: u64)
    requires
        now + PROGRAMMATIC_LAYOUT_NANOS <= u64::MAX,
    ensures
        (t < now + PROGRAMMATIC_LAYOUT_NANOS) == ((now + PROGRAMMATIC_LAYOUT_NANOS) as u64 > t),
{
}

} // verus!
