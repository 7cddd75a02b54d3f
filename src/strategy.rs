use vstd::prelude::*;

use crate::interval::calc_interval_ms;
use crate::keys::{key_code_spec, lower_of, resolve_vk, VIRTUAL_KEY};
use crate::settings::{
    ActionType, AutomationSettings, ClickType, KeyMode, LocationMode, MouseButton, MouseMode,
};
use crate::velocity::{sleep_micros, sleep_micros_spec};

verus! {

/// Polling period of a held key, in milliseconds.
pub const KEY_HOLD_POLL_MS: u64 = 50;

/// Why a run was refused.
#[derive(Clone, Copy, Debug, PartialEq, Eq, Structural)]
pub enum StartError {
    InvalidInterval,
    MissingKey,
}

impl StartError {
    /// The message shown to the user.
    pub fn message(&self) -> (r: String)
        ensures
            r@ == (match self {
                StartError::InvalidInterval => "Interval must be greater than 0"@,
                StartError::MissingKey => "No key selected"@,
            }),
    {
        match self {
            StartError::InvalidInterval => "Interval must be greater than 0".to_owned(),
            StartError::MissingKey => "No key selected".to_owned(),
        }
    }
}

/// The outcome of validating settings: the interval, or why they are refused.
/// A missing key is refused whatever the interval; hold modes never derive
/// the interval, and are given zero.
pub open spec fn validation_spec(s: AutomationSettings) -> Result<u64, StartError> {
    if s.missing_key() {
        Err(StartError::MissingKey)
    } else if s.is_hold_mode() {
        Ok(0)
    } else if s.interval_spec() == 0 {
        Err(StartError::InvalidInterval)
    } else {
        Ok(s.interval_spec() as u64)
    }
}

/// Checks the settings and derives the interval where the mode uses one. Only
/// the key family needs a key; only repeating modes need a positive interval.
pub fn validate(s: &AutomationSettings) -> (r: Result<u64, StartError>)
    requires
        s.needs_interval_spec() ==> s.interval_fits(),
    ensures
        r == validation_spec(*s),
{
    if s.action_type == ActionType::HoldKey && s.hold_key.as_str().is_empty() {
        return Err(StartError::MissingKey);
    }
    let is_hold_mode = (s.action_type == ActionType::Click && s.mouse_mode == MouseMode::Hold)
        || (s.action_type == ActionType::HoldKey && s.key_mode == KeyMode::Hold);
    if is_hold_mode {
        return Ok(0);
    }
    let interval = calc_interval_ms(s.hours, s.minutes, s.seconds, s.milliseconds);
    if interval == 0 {
        return Err(StartError::InvalidInterval);
    }
    Ok(interval)
}

/// What one run does, chosen once from the settings.
#[derive(Clone, Copy, Debug, PartialEq, Eq)]
pub enum Strategy {
    /// Clicks (twice if `double`) every `interval_ms`, after moving to `fixed` if
    /// set; `limit` actions in all, or without end where it is zero.
    ClickRepeat {
        button: MouseButton,
        double: bool,
        fixed: Option<(i32, i32)>,
        limit: u64,
        interval_ms: u64,
    },
    /// Presses `key` every `interval_ms`; `limit` as for clicks.
    KeyRepeat { key: VIRTUAL_KEY, limit: u64, interval_ms: u64 },
    /// Holds `key` down until stopped.
    KeyHold { key: VIRTUAL_KEY },
    /// Holds `button` down and moves by `(dx, dy)` every `sleep_us` until stopped.
    MouseDragHold {
        button: MouseButton,
        fixed: Option<(i32, i32)>,
        dx: i32,
        dy: i32,
        sleep_us: u64,
    },
}

/// The fixed coordinates of the settings, where the location mode asks for them.
pub open spec fn fixed_spec(s: AutomationSettings) -> Option<(i32, i32)> {
    if s.location_mode == LocationMode::Fixed {
        Some((s.fixed_x, s.fixed_y))
    } else {
        None
    }
}

/// The strategy that settings select, given their interval.
pub open spec fn strategy_spec(s: AutomationSettings, interval_ms: u64) -> Strategy {
    let key = VIRTUAL_KEY(key_code_spec(lower_of(s.hold_key@)));
    match s.action_type {
        ActionType::Click => match s.mouse_mode {
            MouseMode::Hold => Strategy::MouseDragHold {
                button: s.mouse_button,
                fixed: fixed_spec(s),
                dx: s.drag_dx,
                dy: s.drag_dy,
                sleep_us: sleep_micros_spec(s.drag_speed) as u64,
            },
            MouseMode::Click => Strategy::ClickRepeat {
                button: s.mouse_button,
                double: s.click_type == ClickType::Double,
                fixed: fixed_spec(s),
                limit: s.repeat_limit(),
                interval_ms,
            },
        },
        ActionType::HoldKey => match s.key_mode {
            KeyMode::Hold => Strategy::KeyHold { key },
            KeyMode::Tap => Strategy::KeyRepeat { key, limit: s.repeat_limit(), interval_ms },
        },
    }
}

/// Picks the strategy of a run from its settings and interval.
pub fn select_strategy(s: &AutomationSettings, interval_ms: u64) -> (r: Strategy)
    ensures
        r == strategy_spec(*s, interval_ms),
{
    let fixed = if s.location_mode == LocationMode::Fixed {
        Some((s.fixed_x, s.fixed_y))
    } else {
        None
    };
    let limit = if s.repeat_mode == crate::settings::RepeatMode::Count {
        s.repeat_count
    } else {
        0
    };
    match s.action_type {
        ActionType::Click => match s.mouse_mode {
            MouseMode::Hold => Strategy::MouseDragHold {
                button: s.mouse_button,
                fixed,
                dx: s.drag_dx,
                dy: s.drag_dy,
                sleep_us: sleep_micros(s.drag_speed),
            },
            MouseMode::Click => Strategy::ClickRepeat {
                button: s.mouse_button,
                double: s.click_type == ClickType::Double,
                fixed,
                limit,
                interval_ms,
            },
        },
        ActionType::HoldKey => {
            let key = resolve_vk(s.hold_key.as_str());
            match s.key_mode {
                KeyMode::Hold => Strategy::KeyHold { key },
                KeyMode::Tap => Strategy::KeyRepeat { key, limit, interval_ms },
            }
        },
    }
}

} // verus!
