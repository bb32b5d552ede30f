use vstd::prelude::*;

use crate::batch::{next_batch_in, SyncError};
use crate::sync::{initial, reachable, request_of, step, ClientModel, EventModel, StepModel};

verus! {

/// The state after a client in state `c` has stepped through `events`.
pub open spec fn state_after(c: ClientModel, events: Seq<EventModel>) -> ClientModel
    decreases events.len(),
{
    if events.len() == 0 {
        c
    } else {
        step(state_after(c, events.drop_last()), events.last()).0
    }
}

/// The steps a client in state `c` takes on `events`, one per event.
pub open spec fn trace(c: ClientModel, events: Seq<EventModel>) -> Seq<StepModel>
    decreases events.len(),
{
    if events.len() == 0 {
        Seq::empty()
    } else {
        trace(c, events.drop_last()).push(step(state_after(c, events.drop_last()), events.last()).1)
    }
}

/// The token of the last batch among `steps`; `None` where no batch was
/// produced.
pub open spec fn latest_token(steps: Seq<StepModel>) -> Option<Seq<char>>
    decreases steps.len(),
{
    if steps.len() == 0 {
        None
    } else {
        match steps.last() {
            StepModel::Ready(t, _) => Some(t),
            _ => latest_token(steps.drop_last()),
        }
    }
}

proof fn lemma_token_tracks_trace(c: ClientModel, events: Seq<EventModel>)
    requires
        c.next_token is None,
    ensures
        state_after(c, events).next_token == latest_token(trace(c, events)),
    decreases events.len(),
{
    if events.len() > 0 {
        lemma_token_tracks_trace(c, events.drop_last());
        let t = trace(c, events);
        assert(t.drop_last() =~= trace(c, events.drop_last()));
    }
}

/// A new client sends as `since`, on every request, the token of the last
/// batch it produced, and omits `since` before it has produced one.
pub proof fn lemma_token_echo(
    host: Seq<char>,
    port: u16,
    path: Seq<char>,
    access_token: Seq<char>,
    events: Seq<EventModel>,
    e: EventModel,
)
    ensures
        ({
            let c0 = initial(host, port, path, access_token);
            step(state_after(c0, events), e).1 matches StepModel::Send(req)
                ==> req.since == latest_token(trace(c0, events))
        }),
{
    lemma_token_tracks_trace(initial(host, port, path, access_token), events);
}

/// After a round trip that produced a batch, whatever happens next, the
/// next step sends a request whose `since` is that batch's token.
pub proof fn lemma_next_request_echoes_batch(c: ClientModel, e1: EventModel, e2: EventModel)
    requires
        step(c, e1).1 is Ready,
    ensures
        step(c, e1).1 matches StepModel::Ready(t, _) && step(step(c, e1).0, e2).1 == StepModel::Send(
            request_of(step(c, e1).0),
        ) && request_of(step(c, e1).0).since == Some(t),
{
}

/// A request is sent only when none is in flight, and it is then in flight;
/// every step keeps requests in flight only on an established connection,
/// so no two requests are ever in flight together.
pub proof fn lemma_single_in_flight(c: ClientModel, e: EventModel)
    requires
        reachable(c),
    ensures
        step(c, e).1 is Send ==> !c.in_flight && step(c, e).0.in_flight,
        c.in_flight && step(c, e).0.in_flight ==> !(step(c, e).1 is Send),
        reachable(step(c, e).0),
{
}

/// A step that answers `NotReady` leaves the state as it was, and does so
/// only on a report that the connection or the response is still pending;
/// the same report again answers `NotReady` again.
pub proof fn lemma_not_ready_reentry(c: ClientModel, e: EventModel)
    requires
        step(c, e).1 == StepModel::NotReady,
    ensures
        step(c, e).0 == c,
        e == EventModel::Connect(crate::sync::ConnectOutcome::Pending) || e == EventModel::ResponsePending,
        step(step(c, e).0, e) == step(c, e),
{
}

/// A response with a status other than 200 to the request in flight fails
/// the round trip: no batch comes out, the continuation token stays as it
/// was, and the error names the status unless the client had already failed.
pub proof fn lemma_fatal_on_status(c: ClientModel, code: u16, body: Seq<u8>)
    requires
        reachable(c),
        c.in_flight,
        code != 200,
    ensures
        step(c, EventModel::Response(code, body)).1 is Fail,
        !c.failed ==> step(c, EventModel::Response(code, body)).1 == StepModel::Fail(SyncError::Status(code)),
        step(c, EventModel::Response(code, body)).0.next_token == c.next_token,
        step(c, EventModel::Response(code, body)).0.failed,
{
}

/// A 200 response to the request in flight whose body is not a sync batch
/// fails the round trip: no batch comes out, and the continuation token
/// stays as it was.
pub proof fn lemma_fatal_on_malformed_body(c: ClientModel, body: Seq<u8>)
    requires
        reachable(c),
        c.in_flight,
        next_batch_in(body) is None,
    ensures
        step(c, EventModel::Response(200, body)).1 is Fail,
        !c.failed ==> step(c, EventModel::Response(200, body)).1 == StepModel::Fail(SyncError::InvalidBody),
        step(c, EventModel::Response(200, body)).0.next_token == c.next_token,
        step(c, EventModel::Response(200, body)).0.failed,
{
}

/// Once a client has failed, it stays failed and every step fails.
pub proof fn lemma_failure_is_final(c: ClientModel, e: EventModel)
    requires
        c.failed,
    ensures
        step(c, e) == (c, StepModel::Fail(SyncError::Terminated)),
{
}

} // verus!
