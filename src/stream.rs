//! What a subscriber's stream does with each thing that can happen to it.

use vstd::prelude::*;

verus! {

/// What a subscriber's wait ends with.
pub enum StreamEvent {
    /// A published chunk arrived.
    Message(Vec<u8>),
    /// The subscriber fell behind and this many chunks were dropped for it.
    Lagged(u64),
    /// Every publisher is gone.
    Closed,
    /// The server is shutting down.
    Shutdown,
}

/// What the stream does next.
pub enum StreamAction {
    /// Hand this chunk to the client and wait again.
    Emit(Vec<u8>),
    /// Hand nothing out and wait again.
    Skip,
    /// End the stream normally.
    Stop,
}

/// The chunks a stream hands out when its waits end with `events`, in order:
/// every message up to the first close or shutdown, with lags passed over.
pub open spec fn emitted(events: Seq<StreamEvent>) -> Seq<Seq<u8>>
    decreases events.len(),
{
    if events.len() == 0 {
        Seq::empty()
    } else {
        match events[0] {
            StreamEvent::Message(b) => seq![b@] + emitted(events.drop_first()),
            StreamEvent::Lagged(_) => emitted(events.drop_first()),
            StreamEvent::Closed => Seq::empty(),
            StreamEvent::Shutdown => Seq::empty(),
        }
    }
}

/// The stream's decision for one event: a message is emitted, a lag is
/// skipped, and a close or a shutdown ends the stream.
pub fn stream_step(event: StreamEvent) -> (r: StreamAction)
    ensures
        match event {
            StreamEvent::Message(b) => r matches StreamAction::Emit(o) && o@ == b@,
            StreamEvent::Lagged(_) => r is Skip,
            StreamEvent::Closed => r is Stop,
            StreamEvent::Shutdown => r is Stop,
        },
{
    match event {
        StreamEvent::Message(b) => StreamAction::Emit(b),
        StreamEvent::Lagged(_) => StreamAction::Skip,
        StreamEvent::Closed => StreamAction::Stop,
        StreamEvent::Shutdown => StreamAction::Stop,
    }
}

/// The chunks a stream hands out when its waits end with `events`.
pub fn run_stream(events: Vec<StreamEvent>) -> (r: Vec<Vec<u8>>)
    ensures
        r@.map_values(|c: Vec<u8>| c@) == emitted(events@),
{
    let mut rest = events;
    let mut out: Vec<Vec<u8>> = Vec::new();
    let mut done = false;
    while !done && rest.len() > 0
        invariant
            done ==> emitted(events@) == out@.map_values(|c: Vec<u8>| c@),
            !done ==> emitted(events@) == out@.map_values(|c: Vec<u8>| c@) + emitted(rest@),
        decreases rest.len(),
    {
        let ghost before = rest@;
        let e = rest.remove(0);
        assert(rest@ =~= before.drop_first());
        match stream_step(e) {
            StreamAction::Emit(c) => {
                let ghost prev = out@;
                out.push(c);
                assert(out@.map_values(|c: Vec<u8>| c@) =~= prev.map_values(|c: Vec<u8>| c@) + seq![
                    c@,
                ]);
            },
            StreamAction::Skip => {},
            StreamAction::Stop => {
                done = true;
                assert(out@.map_values(|c: Vec<u8>| c@) + Seq::<Seq<u8>>::empty() =~= out@.map_values(
                    |c: Vec<u8>| c@,
                ));
            },
        }
    }
    if !done {
        assert(out@.map_values(|c: Vec<u8>| c@) + Seq::<Seq<u8>>::empty() =~= out@.map_values(
            |c: Vec<u8>| c@,
        ));
    }
    out
}

/// Falling behind never ends a stream: a lag anywhere among the events
/// leaves the handed-out chunks exactly those of the events without it.
pub proof fn lemma_lag_keeps_stream(before: Seq<StreamEvent>, missed: u64, after: Seq<StreamEvent>)
    ensures
        emitted(before + seq![StreamEvent::Lagged(missed)] + after) == emitted(before + after),
    decreases before.len(),
{
    let all = before + seq![StreamEvent::Lagged(missed)] + after;
    if before.len() == 0 {
        assert(all.drop_first() =~= after);
        assert(before + after =~= after);
    } else {
        assert(all[0] == before[0]);
        assert((before + after)[0] == before[0]);
        assert(all.drop_first() =~= before.drop_first() + seq![StreamEvent::Lagged(missed)] + after);
        assert((before + after).drop_first() =~= before.drop_first() + after);
        lemma_lag_keeps_stream(before.drop_first(), missed, after);
    }
}

/// A shutdown ends every open stream at once: nothing that happens after it
/// is handed out, and it ends the stream without an error.
pub proof fn lemma_shutdown_ends_stream(before: Seq<StreamEvent>, after: Seq<StreamEvent>)
    ensures
        emitted(before + seq![StreamEvent::Shutdown] + after) == emitted(before),
        emitted(seq![StreamEvent::Shutdown] + after) == Seq::<Seq<u8>>::empty(),
    decreases before.len(),
{
    let all = before + seq![StreamEvent::Shutdown] + after;
    assert((seq![StreamEvent::Shutdown] + after)[0] == StreamEvent::Shutdown);
    if before.len() == 0 {
        assert(all =~= seq![StreamEvent::Shutdown] + after);
    } else {
        assert(all[0] == before[0]);
        assert(all.drop_first() =~= before.drop_first() + seq![StreamEvent::Shutdown] + after);
        lemma_shutdown_ends_stream(before.drop_first(), after);
    }
}

} // verus!
