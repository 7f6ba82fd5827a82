//! Runs of the protocol machine over sequences of signals, and what holds of
//! every run.

use vstd::prelude::*;
use crate::codec::{decoded_text, Outbound};
use crate::json::{parsed_json, Json};
use crate::protocol::{signal_for, Action, Failure, Machine, ProtocolState, Signal};

verus! {

/// The machine after taking `signals` one by one, and all actions it asked
/// for on the way, in order.
pub open spec fn run(machine: Machine, signals: Seq<Signal>) -> (Machine, Seq<Action>)
    decreases signals.len(),
{
    if signals.len() == 0 {
        (machine, Seq::empty())
    } else {
        let before = run(machine, signals.drop_last());
        let last = before.0.step_spec(signals.last());
        (last.0, before.1 + last.1)
    }
}

/// How many of the actions write a `stop` envelope.
pub open spec fn stops_in(actions: Seq<Action>) -> nat
    decreases actions.len(),
{
    if actions.len() == 0 {
        0
    } else {
        stops_in(actions.drop_last()) + if actions.last() == Action::Send(Outbound::Stop) {
            1nat
        } else {
            0nat
        }
    }
}

/// Whether one of the signals is an acknowledgement.
pub open spec fn has_ack(signals: Seq<Signal>) -> bool {
    exists|i: int| 0 <= i < signals.len() && (#[trigger] signals[i]) is Ack
}

/// Whether one of the actions writes the `start` envelope.
pub open spec fn sends_start(actions: Seq<Action>) -> bool {
    actions.contains(Action::Send(Outbound::Start))
}

/// The signals of `data` envelopes that carry the given payloads.
pub open spec fn data_signals(payloads: Seq<Json>) -> Seq<Signal> {
    Seq::new(payloads.len(), |i: int| Signal::Data(Some(payloads[i])))
}

/// The deliveries of the given payloads.
pub open spec fn deliveries(payloads: Seq<Json>) -> Seq<Action> {
    Seq::new(payloads.len(), |i: int| Action::Deliver(payloads[i]))
}

/// `n` requests to close.
pub open spec fn closes(n: nat) -> Seq<Signal> {
    Seq::new(n, |i: int| Signal::Close)
}

proof fn lemma_stops_in_concat(a: Seq<Action>, b: Seq<Action>)
    ensures
        stops_in(a + b) == stops_in(a) + stops_in(b),
    decreases b.len(),
{
    if b.len() == 0 {
        assert(a + b =~= a);
    } else {
        assert((a + b).drop_last() =~= a + b.drop_last());
        assert((a + b).last() == b.last());
        lemma_stops_in_concat(a, b.drop_last());
    }
}

proof fn lemma_stops_in_one(action: Action)
    ensures
        stops_in(seq![action]) == if action == Action::Send(Outbound::Stop) {
            1nat
        } else {
            0nat
        },
{
    reveal_with_fuel(stops_in, 2);
    assert(seq![action].drop_last().len() == 0);
    assert(seq![action].last() == action);
}

proof fn lemma_stops_in_step(machine: Machine, signal: Signal)
    ensures
        stops_in(machine.step_spec(signal).1) <= 1,
        machine.closing() ==> stops_in(machine.step_spec(signal).1) == 0 && machine.step_spec(
            signal,
        ).0.closing(),
        stops_in(machine.step_spec(signal).1) == 1 ==> machine.step_spec(signal).0.closing(),
{
    let out = machine.step_spec(signal).1;
    if out.len() == 1 {
        assert(out =~= seq![out[0]]);
        lemma_stops_in_one(out[0]);
    } else if out.len() == 2 {
        assert(out =~= seq![out[0]] + seq![out[1]]);
        lemma_stops_in_concat(seq![out[0]], seq![out[1]]);
        lemma_stops_in_one(out[0]);
        lemma_stops_in_one(out[1]);
    }
}

/// Without an acknowledgement among the signals, a run from the initial
/// machine stays before the subscription and never writes `start`.
proof fn lemma_no_ack_no_start(signals: Seq<Signal>)
    requires
        !has_ack(signals),
    ensures
        !run(Machine::initial(), signals).0.subscribing(),
        !run(Machine::initial(), signals).0.start_sent,
        !sends_start(run(Machine::initial(), signals).1),
    decreases signals.len(),
{
    if signals.len() > 0 {
        let head = signals.drop_last();
        assert forall|i: int| 0 <= i < head.len() implies !((#[trigger] head[i]) is Ack) by {
            assert(head[i] == signals[i]);
        }
        lemma_no_ack_no_start(head);
        assert(!(signals[signals.len() - 1] is Ack));
        let before = run(Machine::initial(), head);
        let last = before.0.step_spec(signals.last());
        assert forall|k: int| 0 <= k < (before.1 + last.1).len() implies (before.1 + last.1)[k]
            != Action::Send(Outbound::Start) by {
            if k < before.1.len() {
                assert(before.1[k] == (before.1 + last.1)[k]);
                assert(before.1.contains(before.1[k]));
            } else {
                assert((before.1 + last.1)[k] == last.1[k - before.1.len()]);
            }
        }
    }
}

/// The `start` envelope is never written before an acknowledgement has been
/// taken: at every point of every run from the initial machine, if `start`
/// is among the actions asked for so far, an acknowledgement is among the
/// signals taken so far.
pub proof fn lemma_start_only_after_ack(signals: Seq<Signal>, upto: int)
    requires
        0 <= upto <= signals.len(),
    ensures
        sends_start(run(Machine::initial(), signals.subrange(0, upto)).1) ==> has_ack(
            signals.subrange(0, upto),
        ),
{
    if !has_ack(signals.subrange(0, upto)) {
        lemma_no_ack_no_start(signals.subrange(0, upto));
    }
}

/// Whatever the signals, a run asks for the `stop` envelope at most once, and
/// never once the machine is closing or closed.
pub proof fn lemma_stop_at_most_once(machine: Machine, signals: Seq<Signal>)
    ensures
        stops_in(run(machine, signals).1) <= 1,
        stops_in(run(machine, signals).1) == 1 ==> run(machine, signals).0.closing(),
        machine.closing() ==> stops_in(run(machine, signals).1) == 0 && run(
            machine,
            signals,
        ).0.closing(),
    decreases signals.len(),
{
    if signals.len() > 0 {
        let before = run(machine, signals.drop_last());
        lemma_stop_at_most_once(machine, signals.drop_last());
        lemma_stops_in_step(before.0, signals.last());
        lemma_stops_in_concat(before.1, before.0.step_spec(signals.last()).1);
    }
}

/// Closing a session that is not yet closing, any number of times in a row,
/// writes the `stop` envelope exactly once.
pub proof fn lemma_repeated_close_stops_once(machine: Machine, n: nat)
    requires
        !machine.closing(),
        n >= 1,
    ensures
        stops_in(run(machine, closes(n)).1) == 1,
        run(machine, closes(n)).0.state == ProtocolState::Closing,
    decreases n,
{
    let signals = closes(n);
    let head = signals.drop_last();
    assert(head =~= closes((n - 1) as nat));
    assert(signals.last() == Signal::Close);
    let before = run(machine, head);
    let last = before.0.step_spec(Signal::Close);
    lemma_stops_in_concat(before.1, last.1);
    if n == 1 {
        assert(before.1.len() == 0);
        assert(last.1 =~= seq![Action::Send(Outbound::Stop)]);
        lemma_stops_in_one(Action::Send(Outbound::Stop));
    } else {
        lemma_repeated_close_stops_once(machine, (n - 1) as nat);
        assert(last.1.len() == 0);
    }
}

/// Whether none of the signals reports a failure of the transport or of a
/// write.
pub open spec fn no_failure_in(signals: Seq<Signal>) -> bool {
    forall|i: int|
        0 <= i < signals.len() ==> !((#[trigger] signals[i]) is TransportFailed)
            && !(signals[i] is WriteFailed)
}

/// A run over `first + second` is the run over `first`, continued over
/// `second`.
pub proof fn lemma_run_concat(machine: Machine, first: Seq<Signal>, second: Seq<Signal>)
    ensures
        run(machine, first + second).0 == run(run(machine, first).0, second).0,
        run(machine, first + second).1 == run(machine, first).1 + run(
            run(machine, first).0,
            second,
        ).1,
    decreases second.len(),
{
    if second.len() == 0 {
        assert(first + second =~= first);
        assert(run(machine, first).1 + Seq::<Action>::empty() =~= run(machine, first).1);
    } else {
        assert((first + second).drop_last() =~= first + second.drop_last());
        assert((first + second).last() == second.last());
        lemma_run_concat(machine, first, second.drop_last());
        let middle = run(machine, first);
        let before = run(middle.0, second.drop_last());
        let last = before.0.step_spec(second.last());
        assert(middle.1 + (before.1 + last.1) =~= (middle.1 + before.1) + last.1);
    }
}

proof fn lemma_stop_follows_closing(machine: Machine, signals: Seq<Signal>)
    requires
        !machine.closing(),
        no_failure_in(signals),
    ensures
        run(machine, signals).0.closing() <==> stops_in(run(machine, signals).1) == 1,
        stops_in(run(machine, signals).1) <= 1,
    decreases signals.len(),
{
    if signals.len() > 0 {
        let head = signals.drop_last();
        assert forall|i: int| 0 <= i < head.len() implies !((#[trigger] head[i])
            is TransportFailed) && !(head[i] is WriteFailed) by {
            assert(head[i] == signals[i]);
        }
        lemma_stop_follows_closing(machine, head);
        let before = run(machine, head);
        let signal = signals[signals.len() - 1];
        let last = before.0.step_spec(signal);
        lemma_stops_in_step(before.0, signal);
        lemma_stops_in_concat(before.1, last.1);
        if !before.0.closing() && last.0.closing() {
            assert(last.1.len() >= 1 && last.1[0] == Action::Send(Outbound::Stop));
            if last.1.len() == 1 {
                assert(last.1 =~= seq![last.1[0]]);
                lemma_stops_in_one(last.1[0]);
            } else {
                assert(last.1 =~= seq![last.1[0]] + seq![last.1[1]]);
                lemma_stops_in_concat(seq![last.1[0]], seq![last.1[1]]);
                lemma_stops_in_one(last.1[0]);
                lemma_stops_in_one(last.1[1]);
            }
        }
    }
}

/// However a request to close is interleaved with other signals and with
/// further requests to close, the `stop` envelope is written exactly once:
/// this holds of every run of a session that is not yet closing and in which
/// no failure of the transport or of a write comes before the first request.
pub proof fn lemma_close_stops_exactly_once(
    machine: Machine,
    before: Seq<Signal>,
    after: Seq<Signal>,
)
    requires
        !machine.closing(),
        no_failure_in(before),
    ensures
        stops_in(run(machine, before + seq![Signal::Close] + after).1) == 1,
        run(machine, before + seq![Signal::Close] + after).0.closing(),
{
    let asked = before + seq![Signal::Close];
    assert forall|i: int| 0 <= i < asked.len() implies !((#[trigger] asked[i])
        is TransportFailed) && !(asked[i] is WriteFailed) by {
        if i < before.len() {
            assert(asked[i] == before[i]);
        }
    }
    lemma_stop_follows_closing(machine, asked);
    assert(asked.drop_last() =~= before);
    assert(asked.last() == Signal::Close);
    let closed = run(machine, asked);
    assert(closed.0.closing());
    lemma_run_concat(machine, asked, after);
    lemma_stop_at_most_once(closed.0, after);
    lemma_stops_in_concat(closed.1, run(closed.0, after).1);
}

/// An active session hands each `data` payload to the handler exactly once,
/// in the order of arrival, and stays as it is.
pub proof fn lemma_data_delivered_in_order(machine: Machine, payloads: Seq<Json>)
    requires
        machine.state == ProtocolState::Active,
    ensures
        run(machine, data_signals(payloads)).0 == machine,
        run(machine, data_signals(payloads)).1 == deliveries(payloads),
    decreases payloads.len(),
{
    let signals = data_signals(payloads);
    if payloads.len() == 0 {
        assert(deliveries(payloads) =~= Seq::<Action>::empty());
    } else {
        let head = payloads.drop_last();
        assert(signals.drop_last() =~= data_signals(head));
        lemma_data_delivered_in_order(machine, head);
        assert(signals.last() == Signal::Data(Some(payloads.last())));
        assert(deliveries(head) + seq![Action::Deliver(payloads.last())] =~= deliveries(payloads));
    }
}

/// A keepalive moves the time last heard from the server to its arrival and
/// changes nothing else.
pub proof fn lemma_keepalive_recorded(machine: Machine, at_ms: u64)
    ensures
        machine.step_spec(Signal::Keepalive(at_ms)).0.keepalive.last_received_ms == at_ms,
        machine.step_spec(Signal::Keepalive(at_ms)).0.keepalive.timeout_ms
            == machine.keepalive.timeout_ms,
        machine.step_spec(Signal::Keepalive(at_ms)).0.state == machine.state,
        machine.step_spec(Signal::Keepalive(at_ms)).0.start_sent == machine.start_sent,
        machine.step_spec(Signal::Keepalive(at_ms)).1 == Seq::<Action>::empty(),
{
}

/// After a keepalive at `at_ms`, a check at `now_ms` of a session that knows
/// its timeout and is subscribing flags staleness exactly if more than the
/// timeout has passed: it then asks for the `stop` envelope and reports the
/// connection as lost, and the session is closing. Otherwise the check
/// changes nothing.
pub proof fn lemma_silence_is_flagged(machine: Machine, at_ms: u64, now_ms: u64, timeout_ms: u64)
    requires
        machine.subscribing(),
        machine.keepalive.timeout_ms == Some(timeout_ms),
        at_ms <= now_ms,
    ensures
        ({
            let heard = machine.step_spec(Signal::Keepalive(at_ms)).0;
            let checked = heard.step_spec(Signal::Tick(now_ms));
            if now_ms - at_ms > timeout_ms {
                &&& checked.0 == (Machine { state: ProtocolState::Closing, ..heard })
                &&& checked.1 == seq![
                    Action::Send(Outbound::Stop),
                    Action::Fail(Failure::ConnectionLost),
                ]
            } else {
                &&& checked.0 == heard
                &&& checked.1 == Seq::<Action>::empty()
            }
        }),
{
}

/// Before the acknowledgement no timeout is known, and no check flags
/// anything: a run from the initial machine without an acknowledgement knows
/// no timeout.
pub proof fn lemma_no_timeout_before_ack(signals: Seq<Signal>)
    requires
        !has_ack(signals),
    ensures
        run(Machine::initial(), signals).0.keepalive.timeout_ms is None,
    decreases signals.len(),
{
    if signals.len() > 0 {
        let head = signals.drop_last();
        assert forall|i: int| 0 <= i < head.len() implies !((#[trigger] head[i]) is Ack) by {
            assert(head[i] == signals[i]);
        }
        lemma_no_timeout_before_ack(head);
        assert(!(signals[signals.len() - 1] is Ack));
    }
}

/// A text frame that is not well-formed JSON does not decode, and a frame
/// that does not decode neither changes the machine nor asks for any action.
pub proof fn lemma_unparsed_frame_changes_nothing(machine: Machine, text: Seq<char>, now_ms: u64)
    ensures
        parsed_json(text) is None ==> decoded_text(text) is None,
        decoded_text(text) is None ==> machine.step_spec(signal_for(decoded_text(text), now_ms))
            == (machine, Seq::<Action>::empty()),
{
}

} // verus!
