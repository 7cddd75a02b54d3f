use vstd::prelude::*;

verus! {

/// The global shortcuts that start, stop and toggle a run; `None` where unset.
#[derive(Clone, Debug, PartialEq, Eq)]
pub struct HotkeySettings {
    pub start: Option<String>,
    pub stop: Option<String>,
    pub toggle: Option<String>,
}

impl Default for HotkeySettings {
    /// No shortcut is set.
    fn default() -> (r: HotkeySettings)
        ensures
            r.start is None,
            r.stop is None,
            r.toggle is None,
    {
        HotkeySettings { start: None, stop: None, toggle: None }
    }
}

} // verus!
