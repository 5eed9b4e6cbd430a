//! The flags shared between the hook thread and the interface thread.
use vstd::prelude::*;
use std::sync::atomic::{AtomicBool, Ordering};
use crate::engine::toggled;

verus! {

/// Process-wide flags, each a single atomic word accessed with sequentially
/// consistent ordering and shared by reference between the threads.
pub struct AppState {
    /// Whether the keyboard is locked.
    pub locked: AtomicBool,
    /// Set once to ask both threads to stop.
    pub should_quit: AtomicBool,
    /// Asks the interface to show the settings dialog.
    pub show_settings: AtomicBool,
}

impl AppState {
    /// Unlocked, with no quit and no settings request.
    pub fn new() -> Self {
        AppState {
            locked: AtomicBool::new(false),
            should_quit: AtomicBool::new(false),
            show_settings: AtomicBool::new(false),
        }
    }

    /// The lock state now; another thread may change it at any time.
    pub fn is_locked(&self) -> bool {
        self.locked.load(Ordering::SeqCst)
    }

    /// Flips the lock in one atomic step and returns the new state. The
    /// hotkey and the menu both go through here, so their toggles cannot be
    /// told apart and cannot be lost to a race.
    pub fn toggle_locked(&self) -> bool {
        let previous = self.locked.fetch_xor(true, Ordering::SeqCst);
        toggled(previous)
    }

    /// Asks both threads to stop.
    pub fn request_quit(&self) {
        self.should_quit.store(true, Ordering::SeqCst);
    }

    /// Whether a stop has been asked for.
    pub fn quit_requested(&self) -> bool {
        self.should_quit.load(Ordering::SeqCst)
    }
}

} // verus!
