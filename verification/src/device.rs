//! Outputs the protocol core can request, and a model of the digital
//! lines they drive.
//!
//! The core never touches hardware.  Each decision it makes is returned
//! as a sequence of [`Action`]s; the surrounding shell performs them in
//! order against the real peripherals.  [`DeviceState`] mirrors the five
//! digital output lines, so that properties about the lines (for
//! instance, where the status LED ends up after a command) can be stated
//! and proved over the actions alone.

use vstd::prelude::*;

verus! {

/// Ghost-level form of an [`Action`]: byte payloads appear as `Seq<u8>`
/// so contracts and lemmas can speak of them mathematically.
pub enum Act {
    /// Wait at least this many milliseconds before the next action.
    Delay(u64),
    /// Drive the power-enable line.
    SetPower(bool),
    /// Drive the device-enable line.
    SetEnable(bool),
    /// Drive the configuration-bus chip-select line (low asserts it).
    SetChipSelect(bool),
    /// Drive the reset-inhibit line.
    SetResetInhibit(bool),
    /// Drive the status LED.
    SetLed(bool),
    /// Write these bytes to the configuration bus as one framed transfer.
    WriteConfig(Seq<u8>),
    /// Write these bytes to the secondary bus.
    WriteSecondary(Seq<u8>),
    /// Send these bytes back over the host link; failure is ignored.
    Echo(Seq<u8>),
    /// Suspend until the host link reports a connection.
    AwaitConnection,
}

/// One output request from the protocol core to the hardware shell.
#[derive(Clone, Debug, PartialEq, Eq)]
pub enum Action {
    /// Wait at least this many milliseconds before the next action.
    Delay(u64),
    /// Drive the power-enable line.
    SetPower(bool),
    /// Drive the device-enable line.
    SetEnable(bool),
    /// Drive the configuration-bus chip-select line (low asserts it).
    SetChipSelect(bool),
    /// Drive the reset-inhibit line.
    SetResetInhibit(bool),
    /// Drive the status LED.
    SetLed(bool),
    /// Write these bytes to the configuration bus as one framed transfer.
    WriteConfig(Vec<u8>),
    /// Write these bytes to the secondary bus.
    WriteSecondary(Vec<u8>),
    /// Send these bytes back over the host link; failure is ignored.
    Echo(Vec<u8>),
    /// Suspend until the host link reports a connection.
    AwaitConnection,
}

impl View for Action {
    type V = Act;

    open spec fn view(&self) -> Act {
        match self {
            Action::Delay(ms) => Act::Delay(*ms),
            Action::SetPower(level) => Act::SetPower(*level),
            Action::SetEnable(level) => Act::SetEnable(*level),
            Action::SetChipSelect(level) => Act::SetChipSelect(*level),
            Action::SetResetInhibit(level) => Act::SetResetInhibit(*level),
            Action::SetLed(level) => Act::SetLed(*level),
            Action::WriteConfig(bytes) => Act::WriteConfig(bytes@),
            Action::WriteSecondary(bytes) => Act::WriteSecondary(bytes@),
            Action::Echo(bytes) => Act::Echo(bytes@),
            Action::AwaitConnection => Act::AwaitConnection,
        }
    }
}

/// The ghost view of a list of actions.
pub open spec fn acts_of(actions: Seq<Action>) -> Seq<Act> {
    Seq::new(actions.len(), |i: int| actions[i]@)
}

/// The ghost view of a concatenation of action lists is the
/// concatenation of their ghost views.
pub proof fn lemma_acts_of_concat(left: Seq<Action>, right: Seq<Action>)
    ensures
        acts_of(left + right) =~= acts_of(left) + acts_of(right),
{
}

/// The five digital output lines, `true` meaning driven high.
///
/// At power-on the pins are driven as the session constructor requires:
/// power and enable low, chip-select high (de-asserted), reset-inhibit
/// low, LED low.
#[derive(Clone, Copy, Debug, PartialEq, Eq, Structural)]
pub struct DeviceState {
    pub power_enable: bool,
    pub device_enable: bool,
    pub chip_select: bool,
    pub reset_inhibit: bool,
    pub led: bool,
}

/// How one action changes the output lines.  Bus writes, echoes, delays
/// and suspensions leave every line as it is.
pub open spec fn apply_act(lines: DeviceState, act: Act) -> DeviceState {
    match act {
        Act::SetPower(level) => DeviceState { power_enable: level, ..lines },
        Act::SetEnable(level) => DeviceState { device_enable: level, ..lines },
        Act::SetChipSelect(level) => DeviceState { chip_select: level, ..lines },
        Act::SetResetInhibit(level) => DeviceState { reset_inhibit: level, ..lines },
        Act::SetLed(level) => DeviceState { led: level, ..lines },
        _ => lines,
    }
}

/// The output lines after a whole sequence of actions, applied in order.
pub open spec fn apply_acts(lines: DeviceState, acts: Seq<Act>) -> DeviceState
    decreases acts.len(),
{
    if acts.len() == 0 {
        lines
    } else {
        apply_acts(apply_act(lines, acts[0]), acts.drop_first())
    }
}

impl DeviceState {
    /// The initial pin levels: everything low except chip-select, which
    /// idles high (de-asserted).
    pub open spec fn initial() -> DeviceState {
        DeviceState {
            power_enable: false,
            device_enable: false,
            chip_select: true,
            reset_inhibit: false,
            led: false,
        }
    }

    /// Pin levels as they stand at power-on, before any sequencing.
    pub fn new() -> (lines: DeviceState)
        ensures
            lines == DeviceState::initial(),
    {
        DeviceState {
            power_enable: false,
            device_enable: false,
            chip_select: true,
            reset_inhibit: false,
            led: false,
        }
    }

    /// Track one performed action's effect on the output lines.
    pub fn apply(&mut self, action: &Action)
        ensures
            *final(self) == apply_act(*old(self), action@),
    {
        match action {
            Action::SetPower(level) => self.power_enable = *level,
            Action::SetEnable(level) => self.device_enable = *level,
            Action::SetChipSelect(level) => self.chip_select = *level,
            Action::SetResetInhibit(level) => self.reset_inhibit = *level,
            Action::SetLed(level) => self.led = *level,
            _ => {},
        }
    }
}

} // verus!
