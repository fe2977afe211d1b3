//! Keystrokes and events as the state machines read them, and the two-key
//! gesture that jumps to the top.

use vstd::prelude::*;

verus! {

/// A keystroke, as far as the views tell keys apart.
#[derive(Debug, Clone, Copy, PartialEq, Eq, Structural)]
pub enum Key {
    /// A character; the enter key is `Char('\n')`.
    Char(char),
    Up,
    Down,
    Backspace,
    Esc,
    /// Any other key.
    Other,
}

/// What the event loop hands to a view: a keystroke, or the tick of the
/// clock that keeps the screen fresh.
#[derive(Debug, PartialEq, Eq)]
pub enum Event<I> {
    Input(I),
    Tick,
}

/// The keys that end the reading of input, and the pace of the clock.
#[derive(Debug, Clone, Copy)]
pub struct Config {
    pub exit_key: Key,
    pub compose_key: Key,
    /// Milliseconds between two ticks.
    pub tick_rate_ms: u64,
}

impl Default for Config {
    fn default() -> (config: Config)
        ensures
            config.exit_key == Key::Char('q'),
            config.compose_key == Key::Char('e'),
            config.tick_rate_ms == 250,
    {
        Config { exit_key: Key::Char('q'), compose_key: Key::Char('e'), tick_rate_ms: 250 }
    }
}

impl Config {
    /// Whether the reading of input ends once `key` has been forwarded: it
    /// is the exit key or the compose key, and that key is not being ignored.
    pub fn ends_input(&self, key: Key, ignore_exit_key: bool, ignore_compose_key: bool) -> (ends:
        bool)
        ensures
            ends == ((!ignore_exit_key && key == self.exit_key) || (!ignore_compose_key && key
                == self.compose_key)),
    {
        (!ignore_exit_key && key == self.exit_key) || (!ignore_compose_key && key
            == self.compose_key)
    }
}

/// The key that starts and completes the jump to the top.
pub open spec fn lead_key() -> Key {
    Key::Char('g')
}

/// Where a two-key gesture stands.
#[derive(Debug, Clone, Copy, PartialEq, Eq, Structural)]
pub enum Gesture {
    /// No key of the gesture has been typed.
    Idle,
    /// The first key has been typed; the next key decides.
    Armed,
}

/// What a keystroke means once the gesture has seen it.
#[derive(Debug, Clone, Copy, PartialEq, Eq, Structural)]
pub enum Stroke {
    /// The key is no part of the gesture: the view handles it.
    Plain,
    /// The key was the first of the gesture.
    Started,
    /// The key completed the gesture.
    Completed,
    /// The key came in place of the second key: it is ignored, and the
    /// gesture is over.
    Cancelled,
}

/// The gesture as a state machine: the state after `key`, and what the key
/// meant.
pub open spec fn gesture_step(gesture: Gesture, key: Key) -> (Gesture, Stroke) {
    match gesture {
        Gesture::Armed => if key == lead_key() {
            (Gesture::Idle, Stroke::Completed)
        } else {
            (Gesture::Idle, Stroke::Cancelled)
        },
        Gesture::Idle => if key == lead_key() {
            (Gesture::Armed, Stroke::Started)
        } else {
            (Gesture::Idle, Stroke::Plain)
        },
    }
}

impl Gesture {
    /// Feeds a keystroke to the gesture.
    pub fn feed(self, key: Key) -> (next: (Gesture, Stroke))
        ensures
            next == gesture_step(self, key),
    {
        let lead = key == Key::Char('g');
        match self {
            Gesture::Armed => if lead {
                (Gesture::Idle, Stroke::Completed)
            } else {
                (Gesture::Idle, Stroke::Cancelled)
            },
            Gesture::Idle => if lead {
                (Gesture::Armed, Stroke::Started)
            } else {
                (Gesture::Idle, Stroke::Plain)
            },
        }
    }
}

} // verus!
