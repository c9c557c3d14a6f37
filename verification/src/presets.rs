//! The preset speeds offered between the lowest and the highest speed the
//! controlled fans accept.
use vstd::prelude::*;

verus! {

/// The distance between two preset speeds, in RPM.
pub const PRESET_STEP_RPM: i32 = 500;

/// The preset speeds from `first_step * 500` to `last_step * 500`, one step
/// apart; none when `first_step > last_step`. The caller passes the
/// controlled fans' lowest speed divided by 500 and rounded up, and their
/// highest speed divided by 500 and rounded down.
pub open spec fn preset_rpms_spec(first_step: i32, last_step: i32) -> Seq<i32> {
    if first_step > last_step {
        Seq::empty()
    } else {
        Seq::new(
            (last_step - first_step + 1) as nat,
            |k: int| (PRESET_STEP_RPM * (first_step + k)) as i32,
        )
    }
}

/// A step count whose speed fits in an `i32`.
pub open spec fn step_in_range(step: i32) -> bool {
    i32::MIN <= PRESET_STEP_RPM * step <= i32::MAX
}

/// The preset speeds for the steps `first_step ..= last_step` (see
/// `preset_rpms_spec`).
pub fn control_preset_rpms(first_step: i32, last_step: i32) -> (presets: Vec<i32>)
    requires
        step_in_range(first_step),
        step_in_range(last_step),
    ensures
        presets@ == preset_rpms_spec(first_step, last_step),
{
    let mut presets: Vec<i32> = Vec::new();
    if first_step > last_step {
        return presets;
    }
    let mut step: i32 = first_step;
    while step <= last_step
        invariant
            first_step <= step <= last_step + 1,
            first_step <= last_step,
            step_in_range(first_step),
            step_in_range(last_step),
            presets@.len() == step - first_step,
            forall|k: int|
                0 <= k < presets@.len() ==> #[trigger] presets@[k] == PRESET_STEP_RPM * (
                first_step + k),
        decreases last_step + 1 - step,
    {
        let rpm: i32 = PRESET_STEP_RPM * step;
        presets.push(rpm);
        step = step + 1;
    }
    assert(presets@ =~= preset_rpms_spec(first_step, last_step));
    presets
}

/// Law: every preset is a whole number of steps, lies between the first and
/// the last step's speed, the presets rise by exactly one step each, and there
/// is one preset per step.
pub proof fn law_presets_are_steps(first_step: i32, last_step: i32)
    requires
        step_in_range(first_step),
        step_in_range(last_step),
    ensures
        forall|k: int|
            0 <= k < preset_rpms_spec(first_step, last_step).len() ==> {
                let rpm = #[trigger] preset_rpms_spec(first_step, last_step)[k];
                &&& rpm % PRESET_STEP_RPM == 0
                &&& PRESET_STEP_RPM * first_step <= rpm <= PRESET_STEP_RPM * last_step
            },
        forall|k: int|
            0 <= k < preset_rpms_spec(first_step, last_step).len() - 1 ==> #[trigger] preset_rpms_spec(
                first_step,
                last_step,
            )[k + 1] == preset_rpms_spec(first_step, last_step)[k] + PRESET_STEP_RPM,
        preset_rpms_spec(first_step, last_step).len() == if first_step > last_step {
            0
        } else {
            last_step - first_step + 1
        },
{
    assert forall|k: int| 0 <= k < preset_rpms_spec(first_step, last_step).len() implies {
        let rpm = #[trigger] preset_rpms_spec(first_step, last_step)[k];
        &&& rpm % PRESET_STEP_RPM == 0
        &&& PRESET_STEP_RPM * first_step <= rpm <= PRESET_STEP_RPM * last_step
    } by {
        let s = first_step + k;
        assert(first_step <= s <= last_step);
        assert((500 * s) % 500 == 0) by (nonlinear_arith);
        assert(500 * first_step <= 500 * s <= 500 * last_step) by (nonlinear_arith)
            requires
                first_step <= s <= last_step,
        ;
    }
}

} // verus!
