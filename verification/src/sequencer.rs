//! Power-up sequencing for the target device.
//!
//! On session start the target must see, in order: power-enable still
//! low, a settle delay, power-enable and device-enable raised,
//! chip-select asserted (driven low), a second settle delay, and
//! chip-select released.  The delays are a hardware requirement of the
//! target's power-on characteristics and are minimum delays, not
//! best-effort.  This component cannot fail: it only requests
//! digital-output writes and waits.

use vstd::prelude::*;
use crate::device::{acts_of, Act, Action};

verus! {

/// Minimum settle delay, in milliseconds, between the sequencing steps.
pub const SETTLE_DELAY_MS: u64 = 10;

/// The fixed power-up sequence: drive power low, settle, raise power and
/// enable, assert chip-select, settle again, release chip-select.
pub open spec fn power_on_acts() -> Seq<Act> {
    seq![
        Act::SetPower(false),
        Act::Delay(SETTLE_DELAY_MS),
        Act::SetPower(true),
        Act::SetEnable(true),
        Act::SetChipSelect(false),
        Act::Delay(SETTLE_DELAY_MS),
        Act::SetChipSelect(true),
    ]
}

/// The actions that bring the target device out of reset, in the exact
/// order the hardware requires.
pub fn power_on_actions() -> (actions: Vec<Action>)
    ensures
        acts_of(actions@) =~= power_on_acts(),
{
    let mut actions: Vec<Action> = Vec::new();
    actions.push(Action::SetPower(false));
    actions.push(Action::Delay(SETTLE_DELAY_MS));
    actions.push(Action::SetPower(true));
    actions.push(Action::SetEnable(true));
    actions.push(Action::SetChipSelect(false));
    actions.push(Action::Delay(SETTLE_DELAY_MS));
    actions.push(Action::SetChipSelect(true));
    actions
}

} // verus!
