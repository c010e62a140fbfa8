//! What holds of the session over whole runs of the receive loop.
use vstd::prelude::*;
use crate::codec::{is_acknowledgement, kind_of};
use crate::session::{is_clean, next, Dispatched, Inbound, Input, LoopEnd, Phase, Session, Step};

verus! {

/// The state reached and the steps taken when `inputs` are fed to `s` in order.
pub open spec fn run(s: Session, inputs: Seq<Input>) -> (Session, Seq<Step>)
    decreases inputs.len(),
{
    if inputs.len() == 0 {
        (s, Seq::empty())
    } else {
        let (s1, st) = next(s, inputs[0]);
        let (s2, rest) = run(s1, inputs.drop_first());
        (s2, seq![st] + rest)
    }
}

/// The payloads handed to the handler by `steps`, in order.
pub open spec fn dispatched(steps: Seq<Step>) -> Seq<String>
    decreases steps.len(),
{
    if steps.len() == 0 {
        Seq::empty()
    } else {
        match steps[0] {
            Step::Dispatch(t) => seq![t] + dispatched(steps.drop_first()),
            _ => dispatched(steps.drop_first()),
        }
    }
}

/// The payloads of the text frames among `inputs` that are no acknowledgement.
pub open spec fn data_payloads(inputs: Seq<Input>) -> Seq<String>
    decreases inputs.len(),
{
    if inputs.len() == 0 {
        Seq::empty()
    } else {
        match inputs[0] {
            Input::Frame { frame: Inbound::Text(t), .. } => if is_acknowledgement(kind_of(t@)) {
                data_payloads(inputs.drop_first())
            } else {
                seq![t] + data_payloads(inputs.drop_first())
            },
            _ => data_payloads(inputs.drop_first()),
        }
    }
}

/// A Ping frame, received at any time.
pub open spec fn is_ping(i: Input) -> bool {
    i matches Input::Frame { frame: Inbound::Ping(_), .. }
}

/// A Text frame, received at any time.
pub open spec fn is_text(i: Input) -> bool {
    i matches Input::Frame { frame: Inbound::Text(_), .. }
}

/// The answer owed to a ping input.
pub open spec fn pong_for(i: Input) -> Step {
    match i {
        Input::Frame { frame: Inbound::Ping(p), .. } => Step::SendPong(p),
        _ => Step::Receive,
    }
}

proof fn lemma_run_unfold(s: Session, inputs: Seq<Input>)
    requires
        inputs.len() > 0,
    ensures
        run(s, inputs).0 == run(next(s, inputs[0]).0, inputs.drop_first()).0,
        run(s, inputs).1 == seq![next(s, inputs[0]).1] + run(
            next(s, inputs[0]).0,
            inputs.drop_first(),
        ).1,
        dispatched(run(s, inputs).1) == payload_of(next(s, inputs[0]).1) + dispatched(
            run(next(s, inputs[0]).0, inputs.drop_first()).1,
        ),
{
    let st = next(s, inputs[0]).1;
    let rest = run(next(s, inputs[0]).0, inputs.drop_first()).1;
    let all = seq![st] + rest;
    assert(all.drop_first() =~= rest);
    assert(all[0] == st);
    match st {
        Step::Dispatch(t) => {},
        _ => {
            assert(payload_of(st) + dispatched(rest) =~= dispatched(rest));
        },
    }
}

/// What one step hands to the handler.
pub open spec fn payload_of(st: Step) -> Seq<String> {
    match st {
        Step::Dispatch(t) => seq![t],
        _ => Seq::empty(),
    }
}

/// A session whose loop has ended stays as it is and dispatches nothing more.
pub proof fn lemma_ended_is_final(s: Session, inputs: Seq<Input>)
    requires
        s.phase is Ended,
    ensures
        run(s, inputs).0 == s,
        dispatched(run(s, inputs).1) == Seq::<String>::empty(),
    decreases inputs.len(),
{
    if inputs.len() > 0 {
        lemma_run_unfold(s, inputs);
        lemma_ended_is_final(s, inputs.drop_first());
        assert(dispatched(run(s, inputs).1) =~= Seq::<String>::empty());
    }
}

/// Pings alone: each is answered by exactly one Pong with its payload, in
/// arrival order, nothing is dispatched, and the loop keeps running.
pub proof fn lemma_pings_answered(s: Session, inputs: Seq<Input>)
    requires
        s.phase is Running,
        forall|k: int| 0 <= k < inputs.len() ==> is_ping(#[trigger] inputs[k]),
    ensures
        run(s, inputs).1 == inputs.map_values(|i: Input| pong_for(i)),
        dispatched(run(s, inputs).1) == Seq::<String>::empty(),
        run(s, inputs).0.phase is Running,
    decreases inputs.len(),
{
    if inputs.len() > 0 {
        assert(is_ping(inputs[0]));
        let rest = inputs.drop_first();
        assert forall|k: int| 0 <= k < rest.len() implies is_ping(#[trigger] rest[k]) by {
            assert(rest[k] == inputs[k + 1]);
        }
        lemma_run_unfold(s, inputs);
        lemma_pings_answered(next(s, inputs[0]).0, rest);
        assert(run(s, inputs).1 =~= inputs.map_values(|i: Input| pong_for(i)));
        assert(dispatched(run(s, inputs).1) =~= Seq::<String>::empty());
    }
}

/// Text frames alone: those that are no acknowledgement are dispatched
/// exactly once each, in arrival order; acknowledgements never are.
pub proof fn lemma_texts_dispatched_in_order(s: Session, inputs: Seq<Input>)
    requires
        s.phase is Running,
        forall|k: int| 0 <= k < inputs.len() ==> is_text(#[trigger] inputs[k]),
    ensures
        dispatched(run(s, inputs).1) == data_payloads(inputs),
        run(s, inputs).0.phase is Running,
    decreases inputs.len(),
{
    if inputs.len() > 0 {
        assert(is_text(inputs[0]));
        let rest = inputs.drop_first();
        assert forall|k: int| 0 <= k < rest.len() implies is_text(#[trigger] rest[k]) by {
            assert(rest[k] == inputs[k + 1]);
        }
        lemma_run_unfold(s, inputs);
        lemma_texts_dispatched_in_order(next(s, inputs[0]).0, rest);
        assert(data_payloads(inputs) =~= payload_of(next(s, inputs[0]).1) + data_payloads(rest));
    }
}

/// A text frame that acknowledges a request is not handed to the handler.
pub proof fn lemma_acknowledgement_not_dispatched(s: Session, text: String, now: u64)
    requires
        s.phase is Running,
        is_acknowledgement(kind_of(text@)),
    ensures
        next(s, Input::Frame { frame: Inbound::Text(text), now }).1 == Step::Receive,
        next(s, Input::Frame { frame: Inbound::Text(text), now }).0.phase is Running,
{
}

/// A text frame that is no acknowledgement is handed to the handler once, as it came.
pub proof fn lemma_data_frame_dispatched(s: Session, text: String, now: u64)
    requires
        s.phase is Running,
        !is_acknowledgement(kind_of(text@)),
    ensures
        next(s, Input::Frame { frame: Inbound::Text(text), now }).1 == Step::Dispatch(text),
{
}

/// Silence beyond the idle timeout ends the loop with the clean timeout
/// outcome, without a dispatch.
pub proof fn lemma_idle_timeout(s: Session, t: u64, a: u64, now: u64)
    requires
        s.phase is Running,
        s.idle_timeout == Some(t),
        s.last_activity == Some(a),
        now >= a,
        now - a > t,
    ensures
        next(s, Input::Poll { running: true, now }).1 == Step::End(LoopEnd::IdleTimeout),
        next(s, Input::Poll { running: true, now }).0.phase == Phase::Ended(LoopEnd::IdleTimeout),
        is_clean(LoopEnd::IdleTimeout),
{
}

/// A Close frame ends a running loop with the clean remote-close outcome.
pub proof fn lemma_remote_close(s: Session, now: u64)
    requires
        s.phase is Running,
    ensures
        next(s, Input::Frame { frame: Inbound::Close, now }).1 == Step::End(LoopEnd::RemoteClose),
        next(s, Input::Frame { frame: Inbound::Close, now }).0.phase == Phase::Ended(
            LoopEnd::RemoteClose,
        ),
        is_clean(LoopEnd::RemoteClose),
{
}

/// A decode failure ends the loop with the decode-error outcome, and nothing
/// is dispatched afterwards, whatever follows.
pub proof fn lemma_decode_failure_ends(s: Session, rest: Seq<Input>)
    requires
        s.phase is Running,
    ensures
        ({
            let r = run(s, seq![Input::Dispatch(Dispatched::DecodeFailed)] + rest);
            &&& r.1[0] == Step::End(LoopEnd::DecodeError)
            &&& r.0.phase == Phase::Ended(LoopEnd::DecodeError)
            &&& dispatched(r.1) == Seq::<String>::empty()
            &&& !is_clean(LoopEnd::DecodeError)
        }),
{
    let inputs = seq![Input::Dispatch(Dispatched::DecodeFailed)] + rest;
    assert(inputs.drop_first() =~= rest);
    lemma_run_unfold(s, inputs);
    let s1 = next(s, inputs[0]).0;
    lemma_ended_is_final(s1, rest);
    assert(dispatched(run(s, inputs).1) =~= Seq::<String>::empty());
}

} // verus!
