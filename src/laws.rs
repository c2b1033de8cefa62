use vstd::prelude::*;
use crate::dongle::{
    ack_payload, initial_mode, next, received_line, run, rx_failed_line, Act, Ev, Mode,
    SCAN_CYCLES,
};
use crate::echo::{halts, lemma_first_quit_unique, quit_free, upper_all};

verus! {

/// The radio actions that the laws count.
pub enum Kind {
    Arm,
    Tx,
    Scan,
}

pub open spec fn is_kind(a: Act, k: Kind) -> bool {
    match k {
        Kind::Arm => a is Arm,
        Kind::Tx => a is Tx,
        Kind::Scan => a is Scan,
    }
}

/// How many actions of `acts` are of kind `k`.
pub open spec fn count(acts: Seq<Act>, k: Kind) -> nat
    decreases acts.len(),
{
    if acts.len() == 0 {
        0
    } else {
        count(acts.drop_last(), k) + if is_kind(acts.last(), k) { 1nat } else { 0nat }
    }
}

proof fn lemma_count_add(a: Seq<Act>, b: Seq<Act>, k: Kind)
    ensures
        count(a + b, k) == count(a, k) + count(b, k),
    decreases b.len(),
{
    if b.len() == 0 {
        assert(a + b =~= a);
    } else {
        lemma_count_add(a, b.drop_last(), k);
        assert((a + b).drop_last() =~= a + b.drop_last());
        assert((a + b).last() == b.last());
    }
}

/// In one step, a receive is armed only on the radio's turn when none is armed,
/// and a frame is transmitted and the channel scanned only when an armed receive
/// completes: a transmission on a good frame alone, a scan on either outcome.
pub proof fn lemma_step_counts(m: Mode, e: Ev)
    ensures
        count(next(m, e).1, Kind::Arm) == if !m.halted && !m.receiving && e is Tick { 1nat } else { 0nat },
        count(next(m, e).1, Kind::Tx) == if !m.halted && m.receiving && e is Received { 1nat } else { 0nat },
        count(next(m, e).1, Kind::Scan) == if !m.halted && m.receiving && (e is Received || e is ReceiveFailed) {
            1nat
        } else {
            0nat
        },
{
    reveal_with_fuel(count, 4);
}

/// Over any run from the start, the receives armed are the completed cycles plus
/// the one armed now, if any: no receive is armed while another is, and each
/// completed cycle is quieted by exactly one energy scan.
pub proof fn lemma_one_receive_at_a_time(evs: Seq<Ev>)
    ensures
        count(run(initial_mode(), evs).1, Kind::Arm) == count(run(initial_mode(), evs).1, Kind::Scan)
            + if run(initial_mode(), evs).0.receiving { 1nat } else { 0nat },
    decreases evs.len(),
{
    if evs.len() > 0 {
        lemma_one_receive_at_a_time(evs.drop_last());
        let (m1, a1) = run(initial_mode(), evs.drop_last());
        let (m2, a2) = next(m1, evs.last());
        lemma_step_counts(m1, evs.last());
        lemma_count_add(a1, a2, Kind::Arm);
        lemma_count_add(a1, a2, Kind::Scan);
    }
}

/// A good frame on an armed receive is reported on USB, answered with exactly one
/// `ACK` transmission, and the channel is scanned once; no receive is then armed,
/// so the acknowledgement goes out before the next one.
pub proof fn lemma_ack_after_good_frame(m: Mode, p: Seq<u8>)
    requires
        m.receiving,
        !m.halted,
    ensures
        next(m, Ev::Received(p)) == (
            Mode { receiving: false, halted: false },
            seq![Act::Usb(received_line(p)), Act::Tx(ack_payload()), Act::Scan(SCAN_CYCLES)],
        ),
{
}

/// A failed receive transmits nothing, reports `RX failed` once and scans the
/// channel once; no receive is then armed.
pub proof fn lemma_no_transmit_after_failure(m: Mode)
    requires
        m.receiving,
        !m.halted,
    ensures
        next(m, Ev::ReceiveFailed) == (
            Mode { receiving: false, halted: false },
            seq![Act::Usb(rx_failed_line()), Act::Scan(SCAN_CYCLES)],
        ),
{
}

/// A USB chunk without `Q` or `q` is echoed whole, upper-cased, byte for byte,
/// and the state stays as it was.
pub proof fn lemma_echo_quit_free(m: Mode, d: Seq<u8>)
    requires
        !m.halted,
        quit_free(d),
    ensures
        next(m, Ev::UsbData(d)) == (m, seq![Act::Usb(upper_all(d))]),
        upper_all(d).len() == d.len(),
{
    assert(d.take(d.len() as int) =~= d);
    lemma_first_quit_unique(d, d.len() as int);
}

/// A USB chunk with `Q` or `q` stops the loop, and the last action is the halt.
pub proof fn lemma_quit_halts(m: Mode, d: Seq<u8>)
    requires
        !m.halted,
        halts(d),
    ensures
        next(m, Ev::UsbData(d)).0.halted,
        next(m, Ev::UsbData(d)).1.last() == Act::Halt,
{
}

/// Once stopped, the loop stays stopped: no event changes its state or yields
/// any action.
pub proof fn lemma_halted_is_final(m: Mode, evs: Seq<Ev>)
    requires
        m.halted,
    ensures
        run(m, evs) == (m, Seq::<Act>::empty()),
    decreases evs.len(),
{
    if evs.len() > 0 {
        lemma_halted_is_final(m, evs.drop_last());
        assert(Seq::<Act>::empty() + Seq::<Act>::empty() =~= Seq::<Act>::empty());
    }
}

/// Where a run stands in the radio cycle: no cycle open, a receive armed, or an
/// acknowledgement sent for the frame that completed it.
pub enum Phase {
    Idle,
    Armed,
    Acked,
}

/// The phase after one more action, or `None` where the action breaks the cycle
/// arm, at most one transmission, one scan. USB work and polls leave it as it is.
pub open spec fn advance(p: Phase, a: Act) -> Option<Phase> {
    match a {
        Act::Arm => if p is Idle { Some(Phase::Armed) } else { None },
        Act::Tx(_) => if p is Armed { Some(Phase::Acked) } else { None },
        Act::Scan(_) => if p is Idle { None } else { Some(Phase::Idle) },
        _ => Some(p),
    }
}

/// The phase after a sequence of actions, or `None` where one breaks the cycle.
pub open spec fn walk(p: Phase, acts: Seq<Act>) -> Option<Phase>
    decreases acts.len(),
{
    if acts.len() == 0 {
        Some(p)
    } else {
        match walk(p, acts.drop_last()) {
            Some(q) => advance(q, acts.last()),
            None => None,
        }
    }
}

/// The phase that a state of the loop stands for.
pub open spec fn phase_of(m: Mode) -> Phase {
    if m.receiving { Phase::Armed } else { Phase::Idle }
}

proof fn lemma_walk_add(p: Phase, a: Seq<Act>, b: Seq<Act>)
    ensures
        walk(p, a + b) == match walk(p, a) {
            Some(q) => walk(q, b),
            None => None,
        },
    decreases b.len(),
{
    if b.len() == 0 {
        assert(a + b =~= a);
    } else {
        lemma_walk_add(p, a, b.drop_last());
        assert((a + b).drop_last() =~= a + b.drop_last());
        assert((a + b).last() == b.last());
    }
}

proof fn lemma_step_walk(m: Mode, e: Ev)
    ensures
        walk(phase_of(m), next(m, e).1) == Some(phase_of(next(m, e).0)),
{
    reveal_with_fuel(walk, 4);
}

/// Over any run from the start, the radio work follows one cycle again and
/// again: a receive is armed, at most one frame is transmitted, and exactly one
/// energy scan closes the cycle before the next receive is armed. No receive is
/// armed while another is, and no scan or transmission happens outside a cycle.
pub proof fn lemma_radio_discipline(evs: Seq<Ev>)
    ensures
        walk(Phase::Idle, run(initial_mode(), evs).1) == Some(phase_of(run(initial_mode(), evs).0)),
    decreases evs.len(),
{
    if evs.len() > 0 {
        lemma_radio_discipline(evs.drop_last());
        let (m1, a1) = run(initial_mode(), evs.drop_last());
        lemma_step_walk(m1, evs.last());
        lemma_walk_add(Phase::Idle, a1, next(m1, evs.last()).1);
    }
}

} // verus!
