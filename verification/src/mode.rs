//! Control modes and the fan record that the controller works on.
use vstd::prelude::*;

verus! {

/// The control action a user can ask for, and the mode a set of fans is
/// recognised to be in.
#[derive(Debug, Clone, Copy, PartialEq, Eq, Structural)]
pub enum FanControlMode {
    Auto,
    Min,
    Max,
    Preset,
}

/// A fan as the hardware reports it. The speed readings (minimum, maximum,
/// current and target speed) are carried in `rpm`, which the control logic
/// never inspects: every decision that depends on a speed is handed in as
/// a `FanRpmFacts` value.
#[derive(Debug, Clone)]
pub struct Fan<R> {
    pub id: i32,
    pub mode: u8,
    pub display_name: String,
    pub rpm: R,
}

/// Mode codes `0` (automatic) and `3` (system) mean the hardware is in
/// charge of the fan.
pub open spec fn is_hardware_controlled(code: u8) -> bool {
    code == 0 || code == 3
}

/// The name shown for a mode code.
pub open spec fn mode_name_of(code: u8) -> Seq<char> {
    if code == 0 {
        "Auto"@
    } else if code == 1 {
        "Manual"@
    } else if code == 3 {
        "System"@
    } else {
        "Unknown"@
    }
}

/// Whether the hardware controls a fan whose mode code is `code`.
pub fn hardware_controls(code: u8) -> (r: bool)
    ensures
        r == is_hardware_controlled(code),
{
    code == 0 || code == 3
}

impl<R> Fan<R> {
    /// The name of this fan's mode code.
    pub fn mode_name(&self) -> (name: &'static str)
        ensures
            name@ == mode_name_of(self.mode),
    {
        match self.mode {
            0 => "Auto",
            1 => "Manual",
            3 => "System",
            _ => "Unknown",
        }
    }
}

} // verus!
