//! The bridge's guarantees, stated and proved over the ghost model.
//!
//! Each public proof function here is a law about the state machine in
//! [`crate::session`] and [`crate::dispatch`]: how the relay frames a
//! whole payload, that the line buffer stays bounded for every inbound
//! byte sequence, and what dispatching the fixed commands does to the
//! output lines.

use vstd::prelude::*;
use crate::device::{apply_act, apply_acts, Act, DeviceState};
use crate::dispatch::{
    confirm_forwarded, is_terminator, line_acts, run_bytes, step_acts, step_buf, LED_OFF_BYTE,
    LED_ON_BYTE, LINE_CAPACITY, MARKER_BYTE, TERM_NEWLINE,
};
use crate::relay::chunk_acts;
use crate::session::{phase_index, step, Ev, Phase, SessionModel};

verus! {

/// LAW — phases move one way.  No event ever moves a session to an
/// earlier phase: sequencing, relaying and dispatching are visited in
/// that order and never revisited.
pub proof fn lemma_phase_one_directional(s: SessionModel, ev: Ev)
    ensures
        phase_index(step(s, ev).0.phase) >= phase_index(s.phase),
{
}

/// Total number of payload bytes in a sequence of chunks.
pub open spec fn total_len(chunks: Seq<Seq<u8>>) -> int
    decreases chunks.len(),
{
    if chunks.len() == 0 {
        0
    } else {
        chunks[0].len() + total_len(chunks.drop_first())
    }
}

/// The session state after consuming each chunk in order.
pub open spec fn run_relay(s: SessionModel, chunks: Seq<Seq<u8>>) -> SessionModel
    decreases chunks.len(),
{
    if chunks.len() == 0 {
        s
    } else {
        run_relay(step(s, Ev::Chunk(chunks[0])).0, chunks.drop_first())
    }
}

/// A sequence of non-empty chunks holds at least one byte per chunk.
proof fn lemma_total_len_at_least(chunks: Seq<Seq<u8>>)
    requires
        forall|i: int| 0 <= i < chunks.len() ==> (#[trigger] chunks[i]).len() >= 1,
    ensures
        total_len(chunks) >= chunks.len(),
    decreases chunks.len(),
{
    if chunks.len() > 0 {
        assert(forall|i: int|
            0 <= i < chunks.drop_first().len() ==> (#[trigger] chunks.drop_first()[i]).len()
                >= 1);
        lemma_total_len_at_least(chunks.drop_first());
    }
}

/// Consuming a prefix of the chunks, one more chunk at a time.
proof fn lemma_run_relay_unfold(s: SessionModel, chunks: Seq<Seq<u8>>, i: int)
    requires
        1 <= i <= chunks.len(),
    ensures
        run_relay(s, chunks.take(i)) == run_relay(
            step(s, Ev::Chunk(chunks[0])).0,
            chunks.drop_first().take(i - 1),
        ),
{
    assert(chunks.take(i)[0] == chunks[0]);
    assert(chunks.take(i).drop_first() =~= chunks.drop_first().take(i - 1));
}

/// LAW — relay framing and handover.  For every sequence of non-empty
/// inbound chunks whose lengths sum to exactly the bytes still owed,
/// the relay stays in the relaying phase through every proper prefix,
/// produces for each chunk exactly one chip-select assert/release pair
/// around one verbatim transfer of that chunk, and hands the session to
/// the dispatcher — with its line buffer untouched — exactly after the
/// last byte, never before.
pub proof fn lemma_relay_framing(s: SessionModel, chunks: Seq<Seq<u8>>)
    requires
        s.phase is Relaying,
        s.relayed < s.target,
        forall|i: int| 0 <= i < chunks.len() ==> (#[trigger] chunks[i]).len() >= 1,
        s.relayed + total_len(chunks) == s.target,
    ensures
        forall|i: int|
            0 <= i < chunks.len() ==> (#[trigger] run_relay(s, chunks.take(i))).phase
                is Relaying,
        forall|i: int|
            0 <= i < chunks.len() ==> step(
                run_relay(s, chunks.take(i)),
                Ev::Chunk(chunks[i]),
            ).1 =~= chunk_acts(chunks[i]),
        run_relay(s, chunks).phase is Dispatching,
        run_relay(s, chunks).relayed == s.target,
        run_relay(s, chunks).target == s.target,
        run_relay(s, chunks).line == s.line,
    decreases chunks.len(),
{
    assert(total_len(chunks) > 0);
    assert(chunks.len() > 0);
    let data = chunks[0];
    let rest = chunks.drop_first();
    let s1 = step(s, Ev::Chunk(data)).0;
    assert(forall|i: int| 0 <= i < rest.len() ==> (#[trigger] rest[i]).len() >= 1);
    assert(chunks.take(0) =~= Seq::<Seq<u8>>::empty());
    assert(run_relay(s, chunks.take(0)) == s);
    assert(run_relay(s, chunks) == run_relay(s1, rest));
    if chunks.len() == 1 {
        assert(rest =~= Seq::<Seq<u8>>::empty());
        assert(total_len(rest) == 0);
        assert(s1.relayed == s.target);
        assert(s1.phase is Dispatching);
        assert(run_relay(s1, rest) == s1);
        assert forall|i: int| 0 <= i < chunks.len() implies step(
            run_relay(s, chunks.take(i)),
            Ev::Chunk(chunks[i]),
        ).1 =~= chunk_acts(chunks[i]) by {
            assert(i == 0);
            assert(run_relay(s, chunks.take(0)) == s);
        }
    } else {
        lemma_total_len_at_least(rest);
        assert(total_len(rest) >= 1);
        assert(s1.relayed < s.target);
        assert(s1.phase is Relaying);
        lemma_relay_framing(s1, rest);
        assert forall|i: int| 0 <= i < chunks.len() implies (#[trigger] run_relay(
            s,
            chunks.take(i),
        )).phase is Relaying by {
            if i > 0 {
                lemma_run_relay_unfold(s, chunks, i);
                assert(run_relay(s1, rest.take(i - 1)).phase is Relaying);
            }
        }
        assert forall|i: int| 0 <= i < chunks.len() implies step(
            run_relay(s, chunks.take(i)),
            Ev::Chunk(chunks[i]),
        ).1 =~= chunk_acts(chunks[i]) by {
            if i == 0 {
                assert(run_relay(s, chunks.take(0)) == s);
            } else {
                lemma_run_relay_unfold(s, chunks, i);
                assert(step(run_relay(s1, rest.take(i - 1)), Ev::Chunk(rest[i - 1])).1
                    =~= chunk_acts(rest[i - 1]));
                assert(rest[i - 1] == chunks[i]);
            }
        }
    }
}

/// LAW — the line buffer is bounded.  Whatever byte sequence is fed to
/// the dispatcher, the buffer never exceeds its fixed capacity.
pub proof fn lemma_line_buffer_bounded(buf: Seq<u8>, bytes: Seq<u8>)
    requires
        buf.len() <= LINE_CAPACITY,
    ensures
        run_bytes(buf, bytes).0.len() <= LINE_CAPACITY,
    decreases bytes.len(),
{
    if bytes.len() > 0 {
        lemma_line_buffer_bounded(step_buf(buf, bytes[0]), bytes.drop_first());
    }
}

/// LAW — overflow clears.  A byte arriving at a buffer already at
/// capacity leaves an empty buffer, never a grown one.
pub proof fn lemma_overflow_clears(buf: Seq<u8>, byte: u8)
    requires
        buf.len() >= LINE_CAPACITY,
    ensures
        step_buf(buf, byte) =~= Seq::<u8>::empty(),
{
}

/// Applying a concatenation of outputs is applying one part after the
/// other.
proof fn lemma_apply_acts_split(lines: DeviceState, a: Seq<Act>, b: Seq<Act>)
    ensures
        apply_acts(lines, a + b) == apply_acts(apply_acts(lines, a), b),
    decreases a.len(),
{
    if a.len() == 0 {
        assert(a + b =~= b);
    } else {
        assert((a + b)[0] == a[0]);
        assert((a + b).drop_first() =~= a.drop_first() + b);
        lemma_apply_acts_split(apply_act(lines, a[0]), a.drop_first(), b);
    }
}

/// Feeding bytes with no terminator to a buffer with room for them only
/// accumulates: the line grows and nothing is dispatched.
proof fn lemma_accumulate(buf: Seq<u8>, bytes: Seq<u8>)
    requires
        buf.len() + bytes.len() <= LINE_CAPACITY,
        forall|i: int| 0 <= i < bytes.len() ==> !is_terminator(#[trigger] bytes[i]),
    ensures
        run_bytes(buf, bytes).0 =~= buf + bytes,
        run_bytes(buf, bytes).1 =~= Seq::<Act>::empty(),
    decreases bytes.len(),
{
    if bytes.len() == 0 {
        assert(buf + bytes =~= buf);
    } else {
        assert(!is_terminator(bytes[0]));
        assert(forall|i: int|
            0 <= i < bytes.drop_first().len() ==> !is_terminator(
                #[trigger] bytes.drop_first()[i],
            ));
        lemma_accumulate(buf.push(bytes[0]), bytes.drop_first());
        assert(buf.push(bytes[0]) + bytes.drop_first() =~= buf + bytes);
    }
}

/// Dispatching a single byte is one step.
proof fn lemma_run_bytes_one(buf: Seq<u8>, byte: u8)
    ensures
        run_bytes(buf, seq![byte]).0 == step_buf(buf, byte),
        run_bytes(buf, seq![byte]).1 =~= step_acts(buf, byte),
{
    let s = seq![byte];
    assert(s[0] == byte);
    assert(s.drop_first() =~= Seq::<u8>::empty());
    assert(run_bytes(step_buf(buf, byte), s.drop_first()) == run_bytes(
        step_buf(buf, byte),
        Seq::<u8>::empty(),
    ));
    assert(step_acts(buf, byte) + Seq::<Act>::empty() =~= step_acts(buf, byte));
}

/// Applying two outputs, one after the other.
proof fn lemma_apply_two(lines: DeviceState, first: Act, second: Act)
    ensures
        apply_acts(lines, seq![first, second]) == apply_act(apply_act(lines, first), second),
{
    reveal_with_fuel(apply_acts, 3);
    let s = seq![first, second];
    assert(s[0] == first);
    assert(s.drop_first() =~= seq![second]);
    assert(seq![second][0] == second);
    assert(seq![second].drop_first() =~= Seq::<Act>::empty());
}

/// Dispatching distributes over concatenation of the inbound bytes.
proof fn lemma_run_bytes_concat(buf: Seq<u8>, a: Seq<u8>, b: Seq<u8>)
    ensures
        run_bytes(buf, a + b).0 == run_bytes(run_bytes(buf, a).0, b).0,
        run_bytes(buf, a + b).1 =~= run_bytes(buf, a).1 + run_bytes(run_bytes(buf, a).0, b).1,
    decreases a.len(),
{
    if a.len() == 0 {
        assert(a + b =~= b);
        assert(run_bytes(buf, a).1 + run_bytes(buf, b).1 =~= run_bytes(buf, b).1);
    } else {
        assert((a + b)[0] == a[0]);
        assert((a + b).drop_first() =~= a.drop_first() + b);
        lemma_run_bytes_concat(step_buf(buf, a[0]), a.drop_first(), b);
        assert(step_acts(buf, a[0]) + (run_bytes(step_buf(buf, a[0]), a.drop_first()).1
            + run_bytes(run_bytes(buf, a).0, b).1) =~= (step_acts(buf, a[0]) + run_bytes(
            step_buf(buf, a[0]),
            a.drop_first(),
        ).1) + run_bytes(run_bytes(buf, a).0, b).1);
    }
}

/// LAW — round trip of a marker line.  Feeding `$`, then any non-empty
/// payload free of terminators, then a newline into an idle dispatcher
/// releases the reset-inhibit signal, forwards exactly the payload to
/// the secondary bus, and echoes exactly the payload followed by the
/// fixed confirmation — and leaves the buffer idle again.
pub proof fn lemma_marker_round_trip(payload: Seq<u8>)
    requires
        1 <= payload.len(),
        payload.len() + 2 <= LINE_CAPACITY,
        forall|i: int| 0 <= i < payload.len() ==> !is_terminator(#[trigger] payload[i]),
    ensures
        run_bytes(Seq::empty(), seq![MARKER_BYTE] + payload + seq![TERM_NEWLINE]).0
            =~= Seq::<u8>::empty(),
        run_bytes(Seq::empty(), seq![MARKER_BYTE] + payload + seq![TERM_NEWLINE]).1 =~= seq![
            Act::SetResetInhibit(false),
            Act::WriteSecondary(payload),
            Act::Echo(payload),
            Act::Echo(confirm_forwarded()),
        ],
{
    let head = seq![MARKER_BYTE] + payload;
    let bytes = seq![MARKER_BYTE] + payload + seq![TERM_NEWLINE];
    let empty = Seq::<u8>::empty();
    assert(bytes =~= head + seq![TERM_NEWLINE]);
    assert(forall|i: int| 0 <= i < head.len() ==> !is_terminator(#[trigger] head[i]));
    lemma_accumulate(empty, head);
    assert(run_bytes(empty, head).0 =~= head);
    lemma_run_bytes_concat(empty, head, seq![TERM_NEWLINE]);
    lemma_run_bytes_one(head, TERM_NEWLINE);
    let line = head.push(TERM_NEWLINE);
    assert(head.len() < LINE_CAPACITY);
    assert(step_acts(head, TERM_NEWLINE) == line_acts(line));
    assert(line[0] == MARKER_BYTE);
    assert(line.len() > 2);
    assert(line.subrange(1, line.len() - 1) =~= payload);
    assert(step_buf(head, TERM_NEWLINE) =~= empty);
    assert(run_bytes(empty, bytes).1 =~= Seq::<Act>::empty() + line_acts(line));
    assert(Seq::<Act>::empty() + line_acts(line) =~= line_acts(line));
}

/// LAW — a bare marker line carries no payload.  A line of just the
/// marker and a terminator releases the reset-inhibit signal and
/// forwards and echoes nothing.
pub proof fn lemma_bare_marker_forwards_nothing(term: u8)
    requires
        is_terminator(term),
    ensures
        line_acts(seq![MARKER_BYTE, term]) =~= seq![Act::SetResetInhibit(false)],
{
    assert(seq![MARKER_BYTE, term][0] == MARKER_BYTE);
}

/// LAW — a disconnect drops the partial line.  However the session got
/// there, a link-down report suspends until reconnection, discards
/// whatever line was being accumulated, and touches nothing else: the
/// bytes lost are never dispatched, and accumulation resumes from an
/// empty buffer.
pub proof fn lemma_disconnect_drops_partial_line(s: SessionModel)
    ensures
        step(s, Ev::LinkDown).0.line =~= Seq::<u8>::empty(),
        step(s, Ev::LinkDown).0.phase == s.phase,
        step(s, Ev::LinkDown).0.relayed == s.relayed,
        step(s, Ev::LinkDown).0.target == s.target,
        step(s, Ev::LinkDown).1 =~= seq![Act::AwaitConnection],
{
}

/// The output lines after an idle dispatcher consumes `bytes`.
pub open spec fn lines_after(lines: DeviceState, bytes: Seq<u8>) -> DeviceState {
    apply_acts(lines, run_bytes(Seq::empty(), bytes).1)
}

/// The four inbound bytes of two LED command lines in a row.
pub open spec fn led_pair(first: u8, second: u8) -> Seq<u8> {
    seq![first, TERM_NEWLINE, second, TERM_NEWLINE]
}

/// Dispatching one complete two-byte command line from idle.
proof fn lemma_run_two_byte_line(lead: u8)
    requires
        !is_terminator(lead),
    ensures
        run_bytes(Seq::empty(), seq![lead, TERM_NEWLINE]).0 =~= Seq::<u8>::empty(),
        run_bytes(Seq::empty(), seq![lead, TERM_NEWLINE]).1 =~= line_acts(seq![lead, TERM_NEWLINE]),
{
    let empty = Seq::<u8>::empty();
    let bytes = seq![lead, TERM_NEWLINE];
    assert(bytes[0] == lead);
    assert(bytes.drop_first() =~= seq![TERM_NEWLINE]);
    assert(step_buf(empty, lead) =~= seq![lead]);
    lemma_run_bytes_one(seq![lead], TERM_NEWLINE);
    assert(seq![lead].push(TERM_NEWLINE) =~= bytes);
    assert(seq![lead].len() < LINE_CAPACITY);
    assert(step_acts(seq![lead], TERM_NEWLINE) == line_acts(bytes));
    assert(step_buf(seq![lead], TERM_NEWLINE) =~= empty);
    assert(run_bytes(empty, bytes).1 =~= step_acts(empty, lead) + line_acts(bytes));
    assert(step_acts(empty, lead) =~= Seq::<Act>::empty());
    assert(Seq::<Act>::empty() + line_acts(bytes) =~= line_acts(bytes));
}

/// LAW — the LED commands are idempotent, not toggles.  From an idle
/// dispatcher and any state of the output lines, the LED-on line twice
/// in a row leaves the LED high, and the LED-off line followed by the
/// LED-on line leaves it high too.
pub proof fn lemma_led_commands_idempotent(lines: DeviceState)
    ensures
        lines_after(lines, led_pair(LED_ON_BYTE, LED_ON_BYTE)).led,
        lines_after(lines, led_pair(LED_OFF_BYTE, LED_ON_BYTE)).led,
{
    lemma_led_pair(lines, LED_ON_BYTE);
    lemma_led_pair(lines, LED_OFF_BYTE);
}

/// After any LED command line followed by the LED-on line, the LED is
/// high.
proof fn lemma_led_pair(lines: DeviceState, first: u8)
    requires
        first == LED_ON_BYTE || first == LED_OFF_BYTE,
    ensures
        lines_after(lines, led_pair(first, LED_ON_BYTE)).led,
{
    let empty = Seq::<u8>::empty();
    let a = seq![first, TERM_NEWLINE];
    let b = seq![LED_ON_BYTE, TERM_NEWLINE];
    assert(led_pair(first, LED_ON_BYTE) =~= a + b);
    lemma_run_two_byte_line(first);
    lemma_run_two_byte_line(LED_ON_BYTE);
    lemma_run_bytes_concat(empty, a, b);
    let acts_a = line_acts(a);
    let acts_b = line_acts(b);
    assert(run_bytes(empty, a + b).1 =~= acts_a + acts_b);
    lemma_apply_acts_split(lines, acts_a, acts_b);
    assert(a[0] == first);
    assert(b[0] == LED_ON_BYTE);
    let after_a = apply_acts(lines, acts_a);
    assert(acts_b =~= seq![Act::SetLed(true), Act::Echo(crate::dispatch::confirm_led_on())]);
    lemma_apply_two(after_a, Act::SetLed(true), Act::Echo(crate::dispatch::confirm_led_on()));
    assert(apply_acts(after_a, acts_b).led);
    assert(lines_after(lines, led_pair(first, LED_ON_BYTE)) == apply_acts(after_a, acts_b));
}

} // verus!
