//! Recognising which control mode the controlled fans are in.
//!
//! Whether a fan's target speed matches its maximum, its minimum, a preset
//! speed, or the target speed of the first controlled fan is measured on
//! the speed readings and handed in as `FanRpmFacts`; the decisions made on
//! these facts are taken here.
use vstd::prelude::*;
use crate::mode::{FanControlMode, is_hardware_controlled, hardware_controls};

verus! {

/// What the speed readings say about one controlled fan: whether its target
/// speed lies within the matching tolerance of its maximum speed, of its
/// minimum speed, of some preset speed, and of the target speed of the
/// first controlled fan.
#[derive(Debug, Clone, Copy, PartialEq, Eq, Structural)]
pub struct FanRpmFacts {
    pub target_at_max: bool,
    pub target_at_min: bool,
    pub target_at_preset: bool,
    pub target_matches_lead: bool,
}

/// The mode one fan is in: automatic when the hardware controls it and no
/// manual override is held, else maximum, minimum or preset by its target
/// speed, in that order; none when nothing matches.
pub open spec fn fan_mode_spec(code: u8, facts: FanRpmFacts, holding_manual_override: bool) -> Option<
    FanControlMode,
> {
    if is_hardware_controlled(code) && !holding_manual_override {
        Some(FanControlMode::Auto)
    } else if facts.target_at_max {
        Some(FanControlMode::Max)
    } else if facts.target_at_min {
        Some(FanControlMode::Min)
    } else if facts.target_at_preset {
        Some(FanControlMode::Preset)
    } else {
        None
    }
}

/// The mode all fans are in together: automatic when the hardware controls
/// every fan and no override is held, maximum or minimum when every fan's
/// target matches it, preset when every fan's target matches the first
/// fan's and that one matches a preset; none otherwise.
pub open spec fn all_fans_mode_spec(
    codes: Seq<u8>,
    facts: Seq<FanRpmFacts>,
    holding_manual_override: bool,
) -> Option<FanControlMode> {
    if all_hardware_controlled(codes, holding_manual_override) {
        Some(FanControlMode::Auto)
    } else if all_at_max(facts) {
        Some(FanControlMode::Max)
    } else if all_at_min(facts) {
        Some(FanControlMode::Min)
    } else if facts.len() == 0 {
        None
    } else if !all_match_lead(facts) {
        None
    } else if facts[0].target_at_preset {
        Some(FanControlMode::Preset)
    } else {
        None
    }
}

/// The hardware controls every fan and no manual override is held.
pub open spec fn all_hardware_controlled(codes: Seq<u8>, holding_manual_override: bool) -> bool {
    forall|i: int|
        0 <= i < codes.len() ==> is_hardware_controlled(#[trigger] codes[i])
            && !holding_manual_override
}

/// Every fan's target speed matches its maximum.
pub open spec fn all_at_max(facts: Seq<FanRpmFacts>) -> bool {
    forall|i: int| 0 <= i < facts.len() ==> (#[trigger] facts[i]).target_at_max
}

/// Every fan's target speed matches its minimum.
pub open spec fn all_at_min(facts: Seq<FanRpmFacts>) -> bool {
    forall|i: int| 0 <= i < facts.len() ==> (#[trigger] facts[i]).target_at_min
}

/// Every fan's target speed matches the first fan's target speed.
pub open spec fn all_match_lead(facts: Seq<FanRpmFacts>) -> bool {
    forall|i: int| 0 <= i < facts.len() ==> (#[trigger] facts[i]).target_matches_lead
}

/// The mode of the controlled fans: none when no fan is controlled; the
/// all-fans mode when all fans are controlled; otherwise the mode every
/// controlled fan is in, and none when some fan is in no mode or two are in
/// different modes.
pub open spec fn active_mode_spec(
    codes: Seq<u8>,
    facts: Seq<FanRpmFacts>,
    holding_manual_override: bool,
    controls_all_fans: bool,
) -> Option<FanControlMode> {
    if codes.len() == 0 {
        None
    } else if controls_all_fans {
        all_fans_mode_spec(codes, facts, holding_manual_override)
    } else if exists|i: int|
        0 <= i < codes.len() && (#[trigger] fan_mode_spec(
            codes[i],
            facts[i],
            holding_manual_override,
        )) is None {
        None
    } else if forall|i: int|
        0 <= i < codes.len() ==> #[trigger] fan_mode_spec(codes[i], facts[i], holding_manual_override)
            == fan_mode_spec(codes[0], facts[0], holding_manual_override) {
        fan_mode_spec(codes[0], facts[0], holding_manual_override)
    } else {
        None
    }
}

/// Whether the user interface shows that control attempts are under way:
/// only while attempts are sent, and then until the fans are recognised to
/// be in the mode the attempts aim at.
pub open spec fn shows_progress_spec(
    is_sending: bool,
    target: Option<FanControlMode>,
    active: Option<FanControlMode>,
) -> bool {
    if !is_sending {
        false
    } else {
        match target {
            Some(t) => active != Some(t),
            None => true,
        }
    }
}

/// The mode one fan is in (see `fan_mode_spec`).
pub fn active_control_mode_for_fan(
    code: u8,
    facts: FanRpmFacts,
    holding_manual_override: bool,
) -> (mode: Option<FanControlMode>)
    ensures
        mode == fan_mode_spec(code, facts, holding_manual_override),
{
    if hardware_controls(code) && !holding_manual_override {
        Some(FanControlMode::Auto)
    } else if facts.target_at_max {
        Some(FanControlMode::Max)
    } else if facts.target_at_min {
        Some(FanControlMode::Min)
    } else if facts.target_at_preset {
        Some(FanControlMode::Preset)
    } else {
        None
    }
}

/// The mode all fans are in together (see `all_fans_mode_spec`).
pub fn active_control_mode_for_all_fans(
    codes: &Vec<u8>,
    facts: &Vec<FanRpmFacts>,
    holding_manual_override: bool,
) -> (mode: Option<FanControlMode>)
    requires
        codes@.len() == facts@.len(),
    ensures
        mode == all_fans_mode_spec(codes@, facts@, holding_manual_override),
{
    let n = codes.len();
    let mut all_auto = true;
    let mut all_max = true;
    let mut all_min = true;
    let mut all_lead = true;
    let mut i: usize = 0;
    while i < n
        invariant
            n == codes@.len(),
            n == facts@.len(),
            i <= n,
            all_auto == forall|j: int|
                0 <= j < i ==> is_hardware_controlled(#[trigger] codes@[j])
                    && !holding_manual_override,
            all_max == forall|j: int| 0 <= j < i ==> (#[trigger] facts@[j]).target_at_max,
            all_min == forall|j: int| 0 <= j < i ==> (#[trigger] facts@[j]).target_at_min,
            all_lead == forall|j: int| 0 <= j < i ==> (#[trigger] facts@[j]).target_matches_lead,
        decreases n - i,
    {
        let auto_here = hardware_controls(codes[i]) && !holding_manual_override;
        let f = facts[i];
        all_auto = all_auto && auto_here;
        all_max = all_max && f.target_at_max;
        all_min = all_min && f.target_at_min;
        all_lead = all_lead && f.target_matches_lead;
        i = i + 1;
    }
    assert(all_auto == all_hardware_controlled(codes@, holding_manual_override));
    assert(all_max == all_at_max(facts@));
    assert(all_min == all_at_min(facts@));
    assert(all_lead == all_match_lead(facts@));
    if all_auto {
        Some(FanControlMode::Auto)
    } else if all_max {
        Some(FanControlMode::Max)
    } else if all_min {
        Some(FanControlMode::Min)
    } else if n == 0 {
        None
    } else if !all_lead {
        None
    } else if facts[0].target_at_preset {
        Some(FanControlMode::Preset)
    } else {
        None
    }
}

/// The mode of the controlled fans (see `active_mode_spec`); `codes` holds
/// the mode codes of the controlled fans and `facts` what their speed
/// readings say, in the same order.
pub fn active_control_mode(
    codes: &Vec<u8>,
    facts: &Vec<FanRpmFacts>,
    holding_manual_override: bool,
    controls_all_fans: bool,
) -> (mode: Option<FanControlMode>)
    requires
        codes@.len() == facts@.len(),
    ensures
        mode == active_mode_spec(codes@, facts@, holding_manual_override, controls_all_fans),
{
    let n = codes.len();
    if n == 0 {
        return None;
    }
    if controls_all_fans {
        return active_control_mode_for_all_fans(codes, facts, holding_manual_override);
    }
    let first = active_control_mode_for_fan(codes[0], facts[0], holding_manual_override);
    let mut any_none = false;
    let mut all_same = true;
    let mut i: usize = 0;
    while i < n
        invariant
            n == codes@.len(),
            n == facts@.len(),
            n > 0,
            i <= n,
            first == fan_mode_spec(codes@[0], facts@[0], holding_manual_override),
            any_none == exists|j: int|
                0 <= j < i && (#[trigger] fan_mode_spec(
                    codes@[j],
                    facts@[j],
                    holding_manual_override,
                )) is None,
            all_same == forall|j: int|
                0 <= j < i ==> #[trigger] fan_mode_spec(
                    codes@[j],
                    facts@[j],
                    holding_manual_override,
                ) == first,
        decreases n - i,
    {
        let m = active_control_mode_for_fan(codes[i], facts[i], holding_manual_override);
        if m.is_none() {
            any_none = true;
        }
        if m != first {
            all_same = false;
        }
        i = i + 1;
    }
    if any_none {
        None
    } else if all_same {
        first
    } else {
        None
    }
}

/// Whether the user interface shows that control attempts are under way
/// (see `shows_progress_spec`).
pub fn shows_control_attempt_progress(
    is_sending: bool,
    target: Option<FanControlMode>,
    active: Option<FanControlMode>,
) -> (shown: bool)
    ensures
        shown == shows_progress_spec(is_sending, target, active),
{
    if !is_sending {
        false
    } else {
        match target {
            Some(t) => active != Some(t),
            None => true,
        }
    }
}

/// Law: with one fan controlled, the controlled fans are in exactly the
/// mode that fan is in.
pub proof fn law_single_fan_mode(code: u8, facts: FanRpmFacts, holding_manual_override: bool)
    ensures
        active_mode_spec(seq![code], seq![facts], holding_manual_override, false) == fan_mode_spec(
            code,
            facts,
            holding_manual_override,
        ),
{
    let codes = seq![code];
    let fs = seq![facts];
    if fan_mode_spec(code, facts, holding_manual_override) is None {
        assert(fan_mode_spec(codes[0], fs[0], holding_manual_override) is None);
    } else {
        assert forall|i: int| 0 <= i < codes.len() implies #[trigger] fan_mode_spec(
            codes[i],
            fs[i],
            holding_manual_override,
        ) == fan_mode_spec(codes[0], fs[0], holding_manual_override) by {
            assert(i == 0);
        }
    }
}

/// Law: the fans are never recognised to be in automatic mode while a
/// manual override is held, and never in any mode when none is controlled.
pub proof fn law_auto_needs_released_override(
    codes: Seq<u8>,
    facts: Seq<FanRpmFacts>,
    controls_all_fans: bool,
)
    requires
        codes.len() == facts.len(),
    ensures
        active_mode_spec(codes, facts, true, controls_all_fans) != Some(FanControlMode::Auto),
        codes.len() == 0 ==> active_mode_spec(codes, facts, true, controls_all_fans) is None
            && active_mode_spec(codes, facts, false, controls_all_fans) is None,
{
    if codes.len() > 0 {
        if controls_all_fans {
            assert(!(is_hardware_controlled(codes[0]) && !true));
        } else {
            assert(fan_mode_spec(codes[0], facts[0], true) != Some(FanControlMode::Auto));
        }
    }
}

/// Law: progress is shown only while attempts are sent, and never once the
/// fans are in the mode the attempts aim at.
pub proof fn law_progress_only_while_sending(
    is_sending: bool,
    target: Option<FanControlMode>,
    active: Option<FanControlMode>,
)
    ensures
        shows_progress_spec(is_sending, target, active) ==> is_sending,
        target is Some && active == target ==> !shows_progress_spec(is_sending, target, active),
{
}


/// Law: what the all-fans mode means fan by fan. Automatic exactly when
/// every fan is under hardware control (mode code 0 or 3) and no override is
/// held; otherwise maximum exactly when every fan's target is at its
/// maximum; otherwise minimum exactly when every fan's target is at its
/// minimum; otherwise preset exactly when there is a fan, every fan's
/// target matches the first fan's and the first fan's target is at a
/// preset; and no mode in every other case. The same holds of the mode of
/// the controlled fans when all fans are controlled and there is a fan.
pub proof fn law_all_fans_mode_meaning(
    codes: Seq<u8>,
    facts: Seq<FanRpmFacts>,
    holding_manual_override: bool,
)
    requires
        codes.len() == facts.len(),
    ensures
        ({
            let mode = all_fans_mode_spec(codes, facts, holding_manual_override);
            let every_auto = forall|i: int|
                0 <= i < codes.len() ==> (#[trigger] codes[i] == 0 || codes[i] == 3)
                    && !holding_manual_override;
            let every_max = forall|i: int| 0 <= i < facts.len() ==> (#[trigger] facts[i]).target_at_max;
            let every_min = forall|i: int| 0 <= i < facts.len() ==> (#[trigger] facts[i]).target_at_min;
            let shared_preset = facts.len() > 0 && facts[0].target_at_preset && forall|i: int|
                0 <= i < facts.len() ==> (#[trigger] facts[i]).target_matches_lead;
            &&& (mode == Some(FanControlMode::Auto) <==> every_auto)
            &&& (mode == Some(FanControlMode::Max) <==> !every_auto && every_max)
            &&& (mode == Some(FanControlMode::Min) <==> !every_auto && !every_max && every_min)
            &&& (mode == Some(FanControlMode::Preset) <==> !every_auto && !every_max && !every_min
                && shared_preset)
            &&& (mode is None <==> !every_auto && !every_max && !every_min && !shared_preset)
            &&& codes.len() > 0 ==> active_mode_spec(codes, facts, holding_manual_override, true)
                == mode
        }),
{
    let every_auto = forall|i: int|
        0 <= i < codes.len() ==> (#[trigger] codes[i] == 0 || codes[i] == 3)
            && !holding_manual_override;
    assert(every_auto == all_hardware_controlled(codes, holding_manual_override)) by {
        if every_auto {
            assert forall|i: int| 0 <= i < codes.len() implies is_hardware_controlled(
                #[trigger] codes[i],
            ) && !holding_manual_override by {
                assert(codes[i] == 0 || codes[i] == 3);
            }
        }
        if all_hardware_controlled(codes, holding_manual_override) {
            assert forall|i: int| 0 <= i < codes.len() implies (#[trigger] codes[i] == 0 || codes[i]
                == 3) && !holding_manual_override by {
                assert(is_hardware_controlled(codes[i]));
            }
        }
    }
}

/// Law: what one fan's mode means: automatic exactly when the hardware
/// controls it (mode code 0 or 3) and no override is held; otherwise the
/// first of maximum, minimum and preset its target is at; otherwise none.
pub proof fn law_fan_mode_meaning(code: u8, facts: FanRpmFacts, holding_manual_override: bool)
    ensures
        ({
            let mode = fan_mode_spec(code, facts, holding_manual_override);
            let auto = (code == 0 || code == 3) && !holding_manual_override;
            &&& (mode == Some(FanControlMode::Auto) <==> auto)
            &&& (mode == Some(FanControlMode::Max) <==> !auto && facts.target_at_max)
            &&& (mode == Some(FanControlMode::Min) <==> !auto && !facts.target_at_max
                && facts.target_at_min)
            &&& (mode == Some(FanControlMode::Preset) <==> !auto && !facts.target_at_max
                && !facts.target_at_min && facts.target_at_preset)
            &&& (mode is None <==> !auto && !facts.target_at_max && !facts.target_at_min
                && !facts.target_at_preset)
        }),
{
}

/// Law: with one fan or a few fans controlled one by one, a mode is
/// recognised exactly when there is a controlled fan and every controlled
/// fan is in that same mode; otherwise none is.
pub proof fn law_selected_fans_mode_meaning(
    codes: Seq<u8>,
    facts: Seq<FanRpmFacts>,
    holding_manual_override: bool,
    mode: FanControlMode,
)
    requires
        codes.len() == facts.len(),
    ensures
        active_mode_spec(codes, facts, holding_manual_override, false) == Some(mode) <==> (
        codes.len() > 0 && forall|i: int|
            0 <= i < codes.len() ==> #[trigger] fan_mode_spec(
                codes[i],
                facts[i],
                holding_manual_override,
            ) == Some(mode)),
{
    if codes.len() > 0 && forall|i: int|
        0 <= i < codes.len() ==> #[trigger] fan_mode_spec(codes[i], facts[i], holding_manual_override)
            == Some(mode) {
        assert(fan_mode_spec(codes[0], facts[0], holding_manual_override) == Some(mode));
        assert(!exists|i: int|
            0 <= i < codes.len() && (#[trigger] fan_mode_spec(
                codes[i],
                facts[i],
                holding_manual_override,
            )) is None);
    }
    if active_mode_spec(codes, facts, holding_manual_override, false) == Some(mode) {
        assert(fan_mode_spec(codes[0], facts[0], holding_manual_override) == Some(mode));
    }
}

} // verus!
