//! The line-oriented command dispatcher.
//!
//! Once the bitstream has been relayed, every inbound byte is appended
//! to a bounded line buffer.  A newline or carriage-return completes the
//! line: it is classified by its first byte and dispatched, and the
//! buffer is cleared.  A byte arriving while the buffer is already full
//! clears the buffer instead of growing it — a safety valve against a
//! stuck producer, with the data loss accepted.

use vstd::prelude::*;
use crate::device::{acts_of, Act, Action};

verus! {

/// Fixed capacity of the line buffer, in bytes.
pub const LINE_CAPACITY: usize = 128;

/// Leading byte of a line that forwards its payload downstream.
pub const MARKER_BYTE: u8 = 36; // '$'
/// Leading byte of a line that asserts the reset-inhibit signal.
pub const RESET_BYTE: u8 = 114; // 'r'
/// Leading byte of a line that drives the status LED high.
pub const LED_ON_BYTE: u8 = 49; // '1'
/// Leading byte of a line that drives the status LED low.
pub const LED_OFF_BYTE: u8 = 48; // '0'
/// Line terminator: newline.
pub const TERM_NEWLINE: u8 = 10;
/// Line terminator: carriage return.
pub const TERM_RETURN: u8 = 13;

/// Either of the two accepted line terminators.
pub open spec fn is_terminator(byte: u8) -> bool {
    byte == TERM_NEWLINE || byte == TERM_RETURN
}

/// Whether `byte` completes a line.
pub fn terminates_line(byte: u8) -> (complete: bool)
    ensures
        complete == is_terminator(byte),
{
    byte == TERM_NEWLINE || byte == TERM_RETURN
}

/// What a completed line asks for, derived from its first byte.
pub enum Cmd {
    /// Forward `payload` to the secondary bus and release reset-inhibit.
    ConfigureDownstream { payload: Seq<u8> },
    /// Assert the reset-inhibit signal.
    ResetAssert,
    /// Drive the status LED high.
    LedOn,
    /// Drive the status LED low.
    LedOff,
    /// Anything else: no action.
    Unrecognized,
}

/// Executable form of [`Cmd`]; a transient value, consumed immediately.
#[derive(Clone, Debug, PartialEq, Eq)]
pub enum Command {
    /// Forward `payload` to the secondary bus and release reset-inhibit.
    ConfigureDownstream { payload: Vec<u8> },
    /// Assert the reset-inhibit signal.
    ResetAssert,
    /// Drive the status LED high.
    LedOn,
    /// Drive the status LED low.
    LedOff,
    /// Anything else: no action.
    Unrecognized,
}

impl View for Command {
    type V = Cmd;

    open spec fn view(&self) -> Cmd {
        match self {
            Command::ConfigureDownstream { payload } => Cmd::ConfigureDownstream {
                payload: payload@,
            },
            Command::ResetAssert => Cmd::ResetAssert,
            Command::LedOn => Cmd::LedOn,
            Command::LedOff => Cmd::LedOff,
            Command::Unrecognized => Cmd::Unrecognized,
        }
    }
}

/// Fixed confirmation echoed after a payload was forwarded downstream
/// (`"SENT TO FPGA \r\n"`).
pub open spec fn confirm_forwarded() -> Seq<u8> {
    seq![83u8, 69, 78, 84, 32, 84, 79, 32, 70, 80, 71, 65, 32, 13, 10]
}

/// Fixed confirmation echoed after the reset-inhibit signal was
/// asserted (`"SENT FPGA RESET SIGNAL\r\n"`).
pub open spec fn confirm_reset() -> Seq<u8> {
    seq![83u8, 69, 78, 84, 32, 70, 80, 71, 65, 32, 82, 69, 83, 69, 84, 32, 83, 73, 71, 78, 65, 76, 13, 10]
}

/// Fixed confirmation echoed after the LED was driven high
/// (`"LED ON\r\n"`).
pub open spec fn confirm_led_on() -> Seq<u8> {
    seq![76u8, 69, 68, 32, 79, 78, 13, 10]
}

/// Fixed confirmation echoed after the LED was driven low
/// (`"LED OFF\r\n"`).
pub open spec fn confirm_led_off() -> Seq<u8> {
    seq![76u8, 69, 68, 32, 79, 70, 70, 13, 10]
}

/// The command a completed line (terminator still attached) stands for.
///
/// An empty line, a line of just a terminator, or a line with an unknown
/// first byte is unrecognized.  A marker line carries as payload the
/// bytes strictly between the marker and the trailing position; a line
/// of fewer than three bytes carries none.
pub open spec fn classify_spec(line: Seq<u8>) -> Cmd {
    if line.len() == 0 {
        Cmd::Unrecognized
    } else if line[0] == MARKER_BYTE {
        Cmd::ConfigureDownstream {
            payload: if line.len() > 2 {
                line.subrange(1, line.len() - 1)
            } else {
                Seq::empty()
            },
        }
    } else if line[0] == RESET_BYTE {
        Cmd::ResetAssert
    } else if line[0] == LED_ON_BYTE {
        Cmd::LedOn
    } else if line[0] == LED_OFF_BYTE {
        Cmd::LedOff
    } else {
        Cmd::Unrecognized
    }
}

/// Copy `source[start..end]` into a fresh vector.
fn copy_range(source: &Vec<u8>, start: usize, end: usize) -> (out: Vec<u8>)
    requires
        start <= end <= source@.len(),
    ensures
        out@ =~= source@.subrange(start as int, end as int),
{
    let mut out: Vec<u8> = Vec::new();
    let mut i: usize = start;
    while i < end
        invariant
            start <= i <= end <= source@.len(),
            out@ =~= source@.subrange(start as int, i as int),
        decreases end - i,
    {
        out.push(source[i]);
        i = i + 1;
    }
    out
}

/// Classify a completed line, terminator still attached.
pub fn classify(line: &Vec<u8>) -> (command: Command)
    ensures
        command@ == classify_spec(line@),
{
    if line.len() == 0 {
        Command::Unrecognized
    } else if line[0] == MARKER_BYTE {
        let payload: Vec<u8> = if line.len() > 2 {
            copy_range(line, 1, line.len() - 1)
        } else {
            Vec::new()
        };
        Command::ConfigureDownstream { payload }
    } else if line[0] == RESET_BYTE {
        Command::ResetAssert
    } else if line[0] == LED_ON_BYTE {
        Command::LedOn
    } else if line[0] == LED_OFF_BYTE {
        Command::LedOff
    } else {
        Command::Unrecognized
    }
}

/// The outputs a command gives rise to, in dispatch order.
///
/// A marker command always releases the reset-inhibit signal; only when
/// it carries a payload is the payload forwarded to the secondary bus
/// and echoed, followed by the fixed confirmation.  Echoes come after
/// the output they confirm.
pub open spec fn cmd_acts(cmd: Cmd) -> Seq<Act> {
    match cmd {
        Cmd::ConfigureDownstream { payload } => if payload.len() > 0 {
            seq![
                Act::SetResetInhibit(false),
                Act::WriteSecondary(payload),
                Act::Echo(payload),
                Act::Echo(confirm_forwarded()),
            ]
        } else {
            seq![Act::SetResetInhibit(false)]
        },
        Cmd::ResetAssert => seq![Act::SetResetInhibit(true), Act::Echo(confirm_reset())],
        Cmd::LedOn => seq![Act::SetLed(true), Act::Echo(confirm_led_on())],
        Cmd::LedOff => seq![Act::SetLed(false), Act::Echo(confirm_led_off())],
        Cmd::Unrecognized => seq![],
    }
}

/// The outputs a completed line gives rise to.
pub open spec fn line_acts(line: Seq<u8>) -> Seq<Act> {
    cmd_acts(classify_spec(line))
}

/// The confirmation bytes for a forwarded payload.
pub fn confirm_forwarded_bytes() -> (out: Vec<u8>)
    ensures
        out@ =~= confirm_forwarded(),
{
    let mut out: Vec<u8> = Vec::new();
    out.push(83);
    out.push(69);
    out.push(78);
    out.push(84);
    out.push(32);
    out.push(84);
    out.push(79);
    out.push(32);
    out.push(70);
    out.push(80);
    out.push(71);
    out.push(65);
    out.push(32);
    out.push(13);
    out.push(10);
    out
}

/// The confirmation bytes for an asserted reset-inhibit signal.
pub fn confirm_reset_bytes() -> (out: Vec<u8>)
    ensures
        out@ =~= confirm_reset(),
{
    let mut out: Vec<u8> = Vec::new();
    out.push(83);
    out.push(69);
    out.push(78);
    out.push(84);
    out.push(32);
    out.push(70);
    out.push(80);
    out.push(71);
    out.push(65);
    out.push(32);
    out.push(82);
    out.push(69);
    out.push(83);
    out.push(69);
    out.push(84);
    out.push(32);
    out.push(83);
    out.push(73);
    out.push(71);
    out.push(78);
    out.push(65);
    out.push(76);
    out.push(13);
    out.push(10);
    out
}

/// The confirmation bytes for the LED driven high.
pub fn confirm_led_on_bytes() -> (out: Vec<u8>)
    ensures
        out@ =~= confirm_led_on(),
{
    let mut out: Vec<u8> = Vec::new();
    out.push(76);
    out.push(69);
    out.push(68);
    out.push(32);
    out.push(79);
    out.push(78);
    out.push(13);
    out.push(10);
    out
}

/// The confirmation bytes for the LED driven low.
pub fn confirm_led_off_bytes() -> (out: Vec<u8>)
    ensures
        out@ =~= confirm_led_off(),
{
    let mut out: Vec<u8> = Vec::new();
    out.push(76);
    out.push(69);
    out.push(68);
    out.push(32);
    out.push(79);
    out.push(70);
    out.push(70);
    out.push(13);
    out.push(10);
    out
}

/// Turn a command into its outputs, in dispatch order.
pub fn command_actions(command: Command) -> (actions: Vec<Action>)
    ensures
        acts_of(actions@) =~= cmd_acts(command@),
{
    let mut actions: Vec<Action> = Vec::new();
    match command {
        Command::ConfigureDownstream { payload } => {
            actions.push(Action::SetResetInhibit(false));
            if payload.len() > 0 {
                let echo_copy = copy_range(&payload, 0, payload.len());
                assert(echo_copy@ =~= payload@);
                actions.push(Action::WriteSecondary(payload));
                actions.push(Action::Echo(echo_copy));
                actions.push(Action::Echo(confirm_forwarded_bytes()));
            }
        },
        Command::ResetAssert => {
            actions.push(Action::SetResetInhibit(true));
            actions.push(Action::Echo(confirm_reset_bytes()));
        },
        Command::LedOn => {
            actions.push(Action::SetLed(true));
            actions.push(Action::Echo(confirm_led_on_bytes()));
        },
        Command::LedOff => {
            actions.push(Action::SetLed(false));
            actions.push(Action::Echo(confirm_led_off_bytes()));
        },
        Command::Unrecognized => {},
    }
    actions
}

/// The line buffer after one inbound byte.
///
/// Below capacity, a terminator completes (and so empties) the line and
/// any other byte is appended.  At capacity, the buffer is cleared
/// unconditionally and the byte is discarded.
pub open spec fn step_buf(buf: Seq<u8>, byte: u8) -> Seq<u8> {
    if buf.len() < LINE_CAPACITY {
        if is_terminator(byte) {
            Seq::empty()
        } else {
            buf.push(byte)
        }
    } else {
        Seq::empty()
    }
}

/// The outputs one inbound byte gives rise to: none, unless the byte
/// completes a line below capacity, in which case the completed line
/// (terminator attached) is dispatched.
pub open spec fn step_acts(buf: Seq<u8>, byte: u8) -> Seq<Act> {
    if buf.len() < LINE_CAPACITY && is_terminator(byte) {
        line_acts(buf.push(byte))
    } else {
        Seq::empty()
    }
}

/// Buffer and outputs after a whole sequence of inbound bytes, in
/// arrival order.
pub open spec fn run_bytes(buf: Seq<u8>, bytes: Seq<u8>) -> (Seq<u8>, Seq<Act>)
    decreases bytes.len(),
{
    if bytes.len() == 0 {
        (buf, Seq::empty())
    } else {
        let rest = run_bytes(step_buf(buf, bytes[0]), bytes.drop_first());
        (rest.0, step_acts(buf, bytes[0]) + rest.1)
    }
}

/// Feeding one more byte after a sequence steps the final buffer once
/// and appends that step's outputs.
pub proof fn lemma_run_bytes_snoc(buf: Seq<u8>, bytes: Seq<u8>, byte: u8)
    ensures
        run_bytes(buf, bytes.push(byte)).0 == step_buf(run_bytes(buf, bytes).0, byte),
        run_bytes(buf, bytes.push(byte)).1 =~= run_bytes(buf, bytes).1 + step_acts(
            run_bytes(buf, bytes).0,
            byte,
        ),
    decreases bytes.len(),
{
    if bytes.len() == 0 {
        assert(bytes.push(byte)[0] == byte);
        assert(bytes.push(byte).drop_first() =~= Seq::<u8>::empty());
        assert(run_bytes(buf, bytes.push(byte)).0 == run_bytes(step_buf(buf, byte), Seq::empty()).0);
        assert(run_bytes(buf, bytes.push(byte)).1 =~= step_acts(buf, byte) + Seq::<Act>::empty());
        assert(step_acts(buf, byte) + Seq::<Act>::empty() =~= step_acts(buf, byte));
    } else {
        lemma_run_bytes_snoc(step_buf(buf, bytes[0]), bytes.drop_first(), byte);
        assert(bytes.push(byte)[0] == bytes[0]);
        assert(bytes.push(byte).drop_first() =~= bytes.drop_first().push(byte));
    }
}

/// The command dispatcher: a bounded line buffer and nothing else.
pub struct Dispatcher {
    /// Bytes of the line being accumulated, oldest first.
    pub line: Vec<u8>,
}

impl View for Dispatcher {
    type V = Seq<u8>;

    open spec fn view(&self) -> Seq<u8> {
        self.line@
    }
}

impl Dispatcher {
    /// The buffer never exceeds its fixed capacity.
    pub open spec fn wf(&self) -> bool {
        self@.len() <= LINE_CAPACITY
    }

    /// A dispatcher with an empty line buffer.
    pub fn new() -> (dispatcher: Dispatcher)
        ensures
            dispatcher@ =~= Seq::<u8>::empty(),
            dispatcher.wf(),
    {
        Dispatcher { line: Vec::new() }
    }

    /// Drop any partial line, as after a host-link disconnect.
    pub fn reset(&mut self)
        ensures
            final(self)@ =~= Seq::<u8>::empty(),
            final(self).wf(),
    {
        self.line.clear();
    }

    /// Accumulate one inbound byte; dispatch the line it may complete.
    pub fn on_byte(&mut self, byte: u8) -> (actions: Vec<Action>)
        requires
            old(self).wf(),
        ensures
            final(self)@ == step_buf(old(self)@, byte),
            acts_of(actions@) =~= step_acts(old(self)@, byte),
            final(self).wf(),
    {
        if self.line.len() < LINE_CAPACITY {
            self.line.push(byte);
            if terminates_line(byte) {
                let command = classify(&self.line);
                let actions = command_actions(command);
                self.line.clear();
                actions
            } else {
                Vec::new()
            }
        } else {
            self.line.clear();
            Vec::new()
        }
    }
}

} // verus!
