//! What holds of the engine across calls.

use crate::client::{
    connection_closed, drained, first_answer, lemma_first_answer_answers, id_after, lemma_first_answer, timed_out, verdict, within_deadline,
};
use crate::error::{ErrorView, REQUEST_TIMEOUT_SECS};
use crate::protocol::{answers, Message, RequestId, Response};
use vstd::prelude::*;

verus! {

/// The identifiers of one client start at 1 and grow strictly: one issued
/// later is greater than, and so different from, any issued earlier.
pub proof fn law_ids_strictly_increasing(earlier: int, later: int)
    requires
        0 <= earlier < later < i64::MAX,
    ensures
        id_after(0) == RequestId::Number(1),
        id_after(earlier) != id_after(later),
        id_after(earlier) matches RequestId::Number(a) && id_after(later) matches RequestId::Number(
            b,
        ) && a < b && a == earlier + 1 && b == later + 1,
{
}

/// A request ends with the verdict of its own response whatever unrelated
/// messages arrive before it: they are dropped, and what arrived after the
/// response stays queued.
pub proof fn law_unrelated_messages_are_skipped(
    noise: Seq<Message>,
    response: Response,
    rest: Seq<Message>,
    pump_running: bool,
)
    requires
        forall|i: int| 0 <= i < noise.len() ==> !answers(#[trigger] noise[i], response.id),
    ensures
        drained(noise + seq![Message::Response(response)] + rest, response.id, pump_running) == (
            Some(verdict(response)),
            rest,
        ),
{
    let queue = noise + seq![Message::Response(response)] + rest;
    let k = noise.len() as int;
    assert(queue[k] == Message::Response(response));
    assert forall|i: int| 0 <= i < k implies !answers(#[trigger] queue[i], response.id) by {
        assert(queue[i] == noise[i]);
    }
    lemma_first_answer(queue, response.id, k);
    assert(queue.skip(k + 1) =~= rest);
}

/// A request whose response never arrives does not end while the pump runs,
/// and ends as closed once the pump has stopped; either way the queue is
/// drained.
pub proof fn law_unanswered_request(queue: Seq<Message>, id: RequestId, pump_running: bool)
    requires
        forall|i: int| 0 <= i < queue.len() ==> !answers(#[trigger] queue[i], id),
    ensures
        drained(queue, id, pump_running).1 == Seq::<Message>::empty(),
        pump_running ==> drained(queue, id, pump_running).0.is_none(),
        !pump_running ==> drained(queue, id, pump_running).0 == Some(
            Err::<serde_json::Value, ErrorView>(connection_closed()),
        ),
{
    lemma_first_answer(queue, id, queue.len() as int);
}

/// No request waits for ever: one that no message has answered when the
/// deadline is reached fails with the timeout that names its method, while
/// the pump runs. An answer that is queued by then still wins.
pub proof fn law_deadline_ends_the_wait(
    queue: Seq<Message>,
    id: RequestId,
    method: Seq<char>,
    waited_secs: u64,
)
    requires
        waited_secs >= REQUEST_TIMEOUT_SECS,
    ensures
        within_deadline(drained(queue, id, true).0, method, waited_secs).is_some(),
        (forall|i: int| 0 <= i < queue.len() ==> !answers(#[trigger] queue[i], id))
            ==> within_deadline(drained(queue, id, true).0, method, waited_secs) == Some(
            Err::<serde_json::Value, ErrorView>(timed_out(method)),
        ),
        first_answer(queue, id) < queue.len() ==> within_deadline(
            drained(queue, id, true).0,
            method,
            waited_secs,
        ) == drained(queue, id, true).0,
{
    if forall|i: int| 0 <= i < queue.len() ==> !answers(#[trigger] queue[i], id) {
        lemma_first_answer(queue, id, queue.len() as int);
    }
    lemma_first_answer_answers(queue, id);
}

/// The drain of one request swallows the answers of others: whatever
/// arrived ahead of the draining request's own response is gone for good,
/// so another request whose answer was among it waits on, unless its answer
/// comes again among what arrived later.
pub proof fn law_drain_swallows_other_answers(
    ahead: Seq<Message>,
    response: Response,
    rest: Seq<Message>,
    other: RequestId,
)
    requires
        forall|i: int| 0 <= i < ahead.len() ==> !answers(#[trigger] ahead[i], response.id),
        forall|i: int| 0 <= i < rest.len() ==> !answers(#[trigger] rest[i], other),
    ensures
        drained(
            drained(ahead + seq![Message::Response(response)] + rest, response.id, true).1,
            other,
            true,
        ) == (None::<Result<serde_json::Value, ErrorView>>, Seq::<Message>::empty()),
{
    law_unrelated_messages_are_skipped(ahead, response, rest, true);
    law_unanswered_request(rest, other, true);
}

/// The inbound traffic of requests made one after the other: before each
/// response, the messages of `noise` at the same position.
pub open spec fn traffic(noise: Seq<Seq<Message>>, responses: Seq<Response>) -> Seq<Message>
    decreases responses.len(),
{
    if responses.len() == 0 || noise.len() == 0 {
        Seq::empty()
    } else {
        noise[0] + seq![Message::Response(responses[0])] + traffic(
            noise.skip(1),
            responses.skip(1),
        )
    }
}

/// The steps that requests with the identifiers `ids` reach when each in
/// turn drains what the one before left of `queue`.
pub open spec fn steps_in_turn(queue: Seq<Message>, ids: Seq<RequestId>, pump_running: bool) -> Seq<
    Option<Result<serde_json::Value, ErrorView>>,
>
    decreases ids.len(),
{
    if ids.len() == 0 {
        Seq::empty()
    } else {
        let first = drained(queue, ids[0], pump_running);
        seq![first.0] + steps_in_turn(first.1, ids.skip(1), pump_running)
    }
}

/// Requests made one after the other each end with the verdict of the
/// response that bears their own identifier, whatever other messages arrive
/// in between.
pub proof fn law_sequential_requests_are_answered(
    noise: Seq<Seq<Message>>,
    responses: Seq<Response>,
    pump_running: bool,
)
    requires
        noise.len() == responses.len(),
        forall|k: int, i: int|
            0 <= k < responses.len() && 0 <= i < noise[k].len() ==> !answers(
                #[trigger] noise[k][i],
                responses[k].id,
            ),
    ensures
        steps_in_turn(
            traffic(noise, responses),
            Seq::new(responses.len(), |k: int| responses[k].id),
            pump_running,
        ) == Seq::new(responses.len(), |k: int| Some(verdict(responses[k]))),
    decreases responses.len(),
{
    let ids = Seq::new(responses.len(), |k: int| responses[k].id);
    let expected = Seq::new(responses.len(), |k: int| Some(verdict(responses[k])));
    if responses.len() == 0 {
        assert(steps_in_turn(traffic(noise, responses), ids, pump_running) =~= expected);
    } else {
        let later_noise = noise.skip(1);
        let later = responses.skip(1);
        let tail = traffic(later_noise, later);
        assert forall|i: int| 0 <= i < noise[0].len() implies !answers(
            #[trigger] noise[0][i],
            responses[0].id,
        ) by {}
        law_unrelated_messages_are_skipped(noise[0], responses[0], tail, pump_running);
        assert forall|k: int, i: int|
            0 <= k < later.len() && 0 <= i < later_noise[k].len() implies !answers(
            #[trigger] later_noise[k][i],
            later[k].id,
        ) by {
            assert(later_noise[k] == noise[k + 1]);
            assert(later[k] == responses[k + 1]);
            assert(!answers(noise[k + 1][i], responses[k + 1].id));
        }
        law_sequential_requests_are_answered(later_noise, later, pump_running);
        let later_ids = Seq::new(later.len(), |k: int| later[k].id);
        assert(ids.skip(1) =~= later_ids);
        assert(ids[0] == responses[0].id);
        let later_expected = Seq::new(later.len(), |k: int| Some(verdict(later[k])));
        assert(seq![Some(verdict(responses[0]))] + later_expected =~= expected);
    }
}

} // verus!
