use vstd::prelude::*;

use crate::interval::interval_ms_spec;
use crate::keys::text_eq;

verus! {

/// The mouse button that clicks, drags and holds use.
#[derive(Clone, Copy, Debug, PartialEq, Eq, Structural)]
pub enum MouseButton {
    Left,
    Right,
    Middle,
}

/// One click or two per action.
#[derive(Clone, Copy, Debug, PartialEq, Eq, Structural)]
pub enum ClickType {
    Single,
    Double,
}

/// Whether a repeating run goes on until stopped or stops after a count.
#[derive(Clone, Copy, Debug, PartialEq, Eq, Structural)]
pub enum RepeatMode {
    Infinite,
    Count,
}

/// Whether the pointer stays where it is or is first moved to fixed coordinates.
#[derive(Clone, Copy, Debug, PartialEq, Eq, Structural)]
pub enum LocationMode {
    Current,
    Fixed,
}

/// The action family of a run.
#[derive(Clone, Copy, Debug, PartialEq, Eq, Structural)]
pub enum ActionType {
    Click,
    HoldKey,
}

/// Within the click family: repeated clicks, or a held button that drags.
#[derive(Clone, Copy, Debug, PartialEq, Eq, Structural)]
pub enum MouseMode {
    Click,
    Hold,
}

/// Within the key family: a key held down, or repeated taps.
#[derive(Clone, Copy, Debug, PartialEq, Eq, Structural)]
pub enum KeyMode {
    Hold,
    Tap,
}

impl MouseButton {
    /// `"right"` and `"middle"` name those buttons; anything else is the left one.
    pub fn parse(s: &str) -> (r: MouseButton)
        ensures
            r == (if s@ == "right"@ {
                MouseButton::Right
            } else if s@ == "middle"@ {
                MouseButton::Middle
            } else {
                MouseButton::Left
            }),
    {
        if text_eq(s, "right") {
            MouseButton::Right
        } else if text_eq(s, "middle") {
            MouseButton::Middle
        } else {
            MouseButton::Left
        }
    }
}

impl ClickType {
    /// `"double"` gives double clicks; anything else single ones.
    pub fn parse(s: &str) -> (r: ClickType)
        ensures
            r == (if s@ == "double"@ {
                ClickType::Double
            } else {
                ClickType::Single
            }),
    {
        if text_eq(s, "double") {
            ClickType::Double
        } else {
            ClickType::Single
        }
    }
}

impl RepeatMode {
    /// `"count"` bounds the run; anything else repeats until stopped.
    pub fn parse(s: &str) -> (r: RepeatMode)
        ensures
            r == (if s@ == "count"@ {
                RepeatMode::Count
            } else {
                RepeatMode::Infinite
            }),
    {
        if text_eq(s, "count") {
            RepeatMode::Count
        } else {
            RepeatMode::Infinite
        }
    }
}

impl LocationMode {
    /// `"fixed"` moves the pointer first; anything else leaves it.
    pub fn parse(s: &str) -> (r: LocationMode)
        ensures
            r == (if s@ == "fixed"@ {
                LocationMode::Fixed
            } else {
                LocationMode::Current
            }),
    {
        if text_eq(s, "fixed") {
            LocationMode::Fixed
        } else {
            LocationMode::Current
        }
    }
}

impl ActionType {
    /// `"click"` is the click family; anything else the key family.
    pub fn parse(s: &str) -> (r: ActionType)
        ensures
            r == (if s@ == "click"@ {
                ActionType::Click
            } else {
                ActionType::HoldKey
            }),
    {
        if text_eq(s, "click") {
            ActionType::Click
        } else {
            ActionType::HoldKey
        }
    }
}

impl MouseMode {
    /// `"hold"` drags with a held button; anything else clicks.
    pub fn parse(s: &str) -> (r: MouseMode)
        ensures
            r == (if s@ == "hold"@ {
                MouseMode::Hold
            } else {
                MouseMode::Click
            }),
    {
        if text_eq(s, "hold") {
            MouseMode::Hold
        } else {
            MouseMode::Click
        }
    }
}

impl KeyMode {
    /// `"hold"` holds the key; anything else taps it.
    pub fn parse(s: &str) -> (r: KeyMode)
        ensures
            r == (if s@ == "hold"@ {
                KeyMode::Hold
            } else {
                KeyMode::Tap
            }),
    {
        if text_eq(s, "hold") {
            KeyMode::Hold
        } else {
            KeyMode::Tap
        }
    }
}

/// The settings of one run, taken as a snapshot when it starts.
///
/// `drag_dx` and `drag_dy` are the per-tick displacement of a drag: the
/// configured direction, made unit length, scaled by the per-tick magnitude
/// and rounded to whole pixels.
#[derive(Clone, Debug)]
pub struct AutomationSettings {
    pub hours: u64,
    pub minutes: u64,
    pub seconds: u64,
    pub milliseconds: u64,
    pub mouse_button: MouseButton,
    pub click_type: ClickType,
    pub repeat_mode: RepeatMode,
    pub repeat_count: u64,
    pub location_mode: LocationMode,
    pub fixed_x: i32,
    pub fixed_y: i32,
    pub action_type: ActionType,
    pub mouse_mode: MouseMode,
    pub drag_speed: i32,
    pub drag_dx: i32,
    pub drag_dy: i32,
    pub hold_key: String,
    pub key_mode: KeyMode,
}

impl AutomationSettings {
    /// The interval that the duration fields stand for, in milliseconds.
    pub open spec fn interval_spec(&self) -> nat {
        interval_ms_spec(
            self.hours as nat,
            self.minutes as nat,
            self.seconds as nat,
            self.milliseconds as nat,
        )
    }

    /// Whether the interval fits in a `u64`.
    pub open spec fn interval_fits(&self) -> bool {
        self.interval_spec() <= u64::MAX
    }

    /// A hold mode keeps a button or a key down until stopped, and never
    /// uses the interval.
    pub open spec fn is_hold_mode(&self) -> bool {
        (self.action_type == ActionType::Click && self.mouse_mode == MouseMode::Hold) || (
        self.action_type == ActionType::HoldKey && self.key_mode == KeyMode::Hold)
    }

    /// A key-family run without a key.
    pub open spec fn missing_key(&self) -> bool {
        self.action_type == ActionType::HoldKey && self.hold_key@.len() == 0
    }

    /// Whether starting a run with these settings derives the interval: only a
    /// repeating mode with a key, where the family needs one, does.
    pub open spec fn needs_interval_spec(&self) -> bool {
        !self.missing_key() && !self.is_hold_mode()
    }

    /// Whether starting a run with these settings derives the interval.
    pub fn needs_interval(&self) -> (r: bool)
        ensures
            r == self.needs_interval_spec(),
    {
        let missing_key = self.action_type == ActionType::HoldKey && self.hold_key.as_str().is_empty();
        let is_hold_mode = (self.action_type == ActionType::Click && self.mouse_mode == MouseMode::Hold)
            || (self.action_type == ActionType::HoldKey && self.key_mode == KeyMode::Hold);
        !missing_key && !is_hold_mode
    }

    /// The number of actions after which a repeating run ends; zero for none.
    pub open spec fn repeat_limit(&self) -> u64 {
        if self.repeat_mode == RepeatMode::Count {
            self.repeat_count
        } else {
            0
        }
    }
}

} // verus!
