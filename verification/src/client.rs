//! The correlation engine: identifiers, the inbound queue, and the decision
//! that ends an in-flight request.

use crate::error::{outcome_view, Error, ErrorView, INTERNAL_ERROR, REQUEST_TIMEOUT_SECS};
use crate::protocol::{answers, is_notification, is_request, Message, Notification, Request, RequestId, Response};
use crate::types::ServerCapabilities;
use std::collections::VecDeque;
use vstd::prelude::*;
use vstd::string::StringExecFns;

verus! {

/// A request that was handed out for sending and has not ended yet.
#[derive(Clone, Debug, PartialEq)]
pub struct PendingRequest {
    pub id: RequestId,
    pub method: String,
}

/// What the engine decided after looking at the inbound queue.
#[derive(Debug, PartialEq)]
pub enum Step {
    /// Nothing for this request yet: wait for the next message.
    Pending,
    /// The request has ended, with this outcome.
    Done(Result<serde_json::Value, Error>),
}

impl View for Step {
    type V = Option<Result<serde_json::Value, ErrorView>>;

    open spec fn view(&self) -> Self::V {
        match *self {
            Step::Pending => None,
            Step::Done(outcome) => Some(outcome_view(outcome)),
        }
    }
}

/// The identifier that a client issues next after it has issued `issued`
/// of them: the count plus one.
pub open spec fn id_after(issued: int) -> RequestId {
    RequestId::Number((issued + 1) as i64)
}

/// The error for a matching response that carries neither result nor error.
pub open spec fn missing_result() -> ErrorView {
    ErrorView::Protocol { code: INTERNAL_ERROR, message: "Response missing result"@, data: None }
}

/// The error for a queue that ran dry after the pump had stopped.
pub open spec fn connection_closed() -> ErrorView {
    ErrorView::Protocol {
        code: INTERNAL_ERROR,
        message: "Connection closed while waiting for response"@,
        data: None,
    }
}

/// The error for a request to `method` whose deadline passed.
pub open spec fn timed_out(method: Seq<char>) -> ErrorView {
    ErrorView::Other("Request to '"@ + method + "' timed out after 30 seconds"@)
}

/// What becomes of `step` once `waited_secs` seconds have been spent on a
/// request to `method`: a request that has not ended fails at the deadline.
pub open spec fn within_deadline(
    step: Option<Result<serde_json::Value, ErrorView>>,
    method: Seq<char>,
    waited_secs: u64,
) -> Option<Result<serde_json::Value, ErrorView>> {
    if step.is_none() && waited_secs >= REQUEST_TIMEOUT_SECS {
        Some(Err(timed_out(method)))
    } else {
        step
    }
}

/// How a response ends the request it answers: the peer's error object wins,
/// then the result; a response with neither is an internal error.
pub open spec fn verdict(response: Response) -> Result<serde_json::Value, ErrorView> {
    match response.error {
        Some(e) => Err(ErrorView::Protocol { code: e.code, message: e.message@, data: e.data }),
        None => match response.result {
            Some(v) => Ok(v),
            None => Err(missing_result()),
        },
    }
}

/// What one inbound message means to the request `id`: its verdict if the
/// message answers it, nothing otherwise.
pub open spec fn decide(id: RequestId, message: Message) -> Option<
    Result<serde_json::Value, ErrorView>,
> {
    match message {
        Message::Response(r) => if r.id == id {
            Some(verdict(r))
        } else {
            None
        },
        _ => None,
    }
}

/// Position in `queue` of the first message that answers `id`, or the
/// queue's length if none does.
pub open spec fn first_answer(queue: Seq<Message>, id: RequestId) -> int
    decreases queue.len(),
{
    if queue.len() == 0 || answers(queue[0], id) {
        0
    } else {
        1 + first_answer(queue.skip(1), id)
    }
}

/// `first_answer` is the one position before which nothing answers `id` and
/// at which, if it lies inside the queue, a message does.
pub proof fn lemma_first_answer(queue: Seq<Message>, id: RequestId, k: int)
    requires
        0 <= k <= queue.len(),
        forall|i: int| 0 <= i < k ==> !answers(#[trigger] queue[i], id),
        k < queue.len() ==> answers(queue[k], id),
    ensures
        first_answer(queue, id) == k,
    decreases k,
{
    if k > 0 {
        let rest = queue.skip(1);
        assert forall|i: int| 0 <= i < k - 1 implies !answers(#[trigger] rest[i], id) by {
            assert(rest[i] == queue[i + 1]);
        }
        if k < queue.len() {
            assert(rest[k - 1] == queue[k]);
        }
        lemma_first_answer(rest, id, k - 1);
    }
}

/// `first_answer` lies within the queue's bounds, and a position inside
/// the queue holds a message that answers `id`.
pub proof fn lemma_first_answer_answers(queue: Seq<Message>, id: RequestId)
    ensures
        0 <= first_answer(queue, id) <= queue.len(),
        first_answer(queue, id) < queue.len() ==> answers(queue[first_answer(queue, id)], id),
        forall|i: int| 0 <= i < first_answer(queue, id) ==> !answers(#[trigger] queue[i], id),
    decreases queue.len(),
{
    if queue.len() == 0 || answers(queue[0], id) {
    } else {
        let rest = queue.skip(1);
        lemma_first_answer_answers(rest, id);
        let k = first_answer(rest, id);
        if k < rest.len() {
            assert(rest[k] == queue[k + 1]);
        }
        assert forall|i: int| 0 <= i < k + 1 implies !answers(#[trigger] queue[i], id) by {
            if i > 0 {
                assert(queue[i] == rest[i - 1]);
            }
        }
    }
}

impl PendingRequest {
    /// Decides what `message` means to this request: a response with this
    /// request's identifier ends it, anything else is dropped.
    pub fn on_message(&self, message: Message) -> (step: Step)
        ensures
            step@ == decide(self.id, message),
    {
        match message {
            Message::Response(response) => {
                if response.id == self.id {
                    match response.error {
                        Some(e) => Step::Done(
                            Err(Error::Protocol { code: e.code, message: e.message, data: e.data }),
                        ),
                        None => match response.result {
                            Some(v) => Step::Done(Ok(v)),
                            None => Step::Done(
                                Err(Error::protocol(INTERNAL_ERROR, "Response missing result")),
                            ),
                        },
                    }
                } else {
                    Step::Pending
                }
            },
            Message::Notification(_) => Step::Pending,
            Message::Request(_) => Step::Pending,
        }
    }

    /// The failure of this request once its deadline has passed: it names
    /// the method.
    pub fn on_timeout(&self) -> (e: Error)
        ensures
            e@ == timed_out(self.method@),
    {
        let text = String::from_str("Request to '").concat(self.method.as_str()).concat(
            "' timed out after 30 seconds",
        );
        Error::Other(text)
    }

    /// Decides whether this request, still unanswered after `waited_secs`
    /// seconds of draining, goes on waiting: at the deadline it fails.
    pub fn on_wait(&self, waited_secs: u64) -> (step: Step)
        ensures
            step@ == within_deadline(None, self.method@, waited_secs),
    {
        if waited_secs >= REQUEST_TIMEOUT_SECS {
            Step::Done(Err(self.on_timeout()))
        } else {
            Step::Pending
        }
    }

    /// The failure of this request when the transport refused to send it:
    /// the transport's own error.
    pub fn on_send_failure(&self, cause: Error) -> (outcome: Result<serde_json::Value, Error>)
        ensures
            outcome == Err::<serde_json::Value, Error>(cause),
    {
        Err(cause)
    }
}

/// State of one client: the identifier counter, the capability cache, the
/// inbound queue and whether the pump that fills it still runs.
pub struct Client {
    request_counter: i64,
    server_capabilities: Option<ServerCapabilities>,
    queue: VecDeque<Message>,
    pump_running: bool,
}

impl Client {
    /// Number of identifiers issued so far.
    pub closed spec fn issued(&self) -> int {
        self.request_counter as int
    }

    /// The capability cache.
    pub closed spec fn cached(&self) -> Option<ServerCapabilities> {
        self.server_capabilities
    }

    /// The inbound queue, oldest message first.
    pub closed spec fn queue(&self) -> Seq<Message> {
        self.queue@
    }

    /// Whether the pump has not yet stopped.
    pub closed spec fn pump_running(&self) -> bool {
        self.pump_running
    }

    /// Whether the counter can still issue an identifier.
    pub open spec fn can_issue(&self) -> bool {
        self.issued() < i64::MAX
    }

    /// A client that has issued nothing, cached nothing and received
    /// nothing, with its pump running.
    pub fn new() -> (client: Client)
        ensures
            client.issued() == 0,
            client.cached().is_none(),
            client.queue() == Seq::<Message>::empty(),
            client.pump_running(),
    {
        Client {
            request_counter: 0,
            server_capabilities: None,
            queue: VecDeque::new(),
            pump_running: true,
        }
    }

    /// Whether another identifier can be issued.
    pub fn has_next_id(&self) -> (b: bool)
        ensures
            b == self.can_issue(),
    {
        self.request_counter < i64::MAX
    }

    /// Issues the next identifier: one more than the last, the first being 1.
    pub fn next_id(&mut self) -> (id: RequestId)
        requires
            old(self).can_issue(),
        ensures
            id == id_after(old(self).issued()),
            final(self).issued() == old(self).issued() + 1,
            final(self).cached() == old(self).cached(),
            final(self).queue() == old(self).queue(),
            final(self).pump_running() == old(self).pump_running(),
    {
        self.request_counter = self.request_counter + 1;
        RequestId::Number(self.request_counter)
    }

    /// Starts a request: issues a fresh identifier and hands out the
    /// envelope to send, with the record of the request to wait on.
    pub fn request(&mut self, method: &str, params: Option<serde_json::Value>) -> (r: (
        PendingRequest,
        Message,
    ))
        requires
            old(self).can_issue(),
        ensures
            r.0.id == id_after(old(self).issued()),
            r.0.method@ == method@,
            is_request(r.1, method@, params, r.0.id),
            final(self).issued() == old(self).issued() + 1,
            final(self).cached() == old(self).cached(),
            final(self).queue() == old(self).queue(),
            final(self).pump_running() == old(self).pump_running(),
    {
        let id = self.next_id();
        let request = Request::new(method, params, id);
        (PendingRequest { id, method: String::from_str(method) }, Message::Request(request))
    }

    /// The envelope of a notification: no identifier is issued and nothing
    /// is waited for.
    pub fn notify(&self, method: &str, params: Option<serde_json::Value>) -> (message: Message)
        ensures
            is_notification(message, method@, params),
    {
        Message::Notification(Notification::new(method, params))
    }

    /// One turn of the pump, on what the transport's inbound stream gave:
    /// a message joins the queue; a receive error or the end of the stream
    /// stops the pump for good. Returns whether the pump goes on.
    pub fn ingest(&mut self, item: Option<Result<Message, Error>>) -> (running: bool)
        ensures
            running == final(self).pump_running(),
            final(self).pump_running() == (old(self).pump_running() && item matches Some(Ok(_))),
            final(self).queue() == match item {
                Some(Ok(m)) if old(self).pump_running() => old(self).queue().push(m),
                _ => old(self).queue(),
            },
            final(self).issued() == old(self).issued(),
            final(self).cached() == old(self).cached(),
    {
        if !self.pump_running {
            return false;
        }
        match item {
            Some(Ok(message)) => {
                self.queue.push_back(message);
            },
            _ => {
                self.pump_running = false;
            },
        }
        self.pump_running
    }

    /// Drains the queue for `pending`: pops messages, oldest first, up to
    /// and including the first that answers the request, and drops the
    /// others. Without an answer the queue ends empty, and the request
    /// waits on if the pump still runs and fails as closed if it does not.
    pub fn poll(&mut self, pending: &PendingRequest) -> (step: Step)
        ensures
            step@ == drained(old(self).queue(), pending.id, old(self).pump_running()).0,
            final(self).queue() == drained(
                old(self).queue(),
                pending.id,
                old(self).pump_running(),
            ).1,
            final(self).issued() == old(self).issued(),
            final(self).cached() == old(self).cached(),
            final(self).pump_running() == old(self).pump_running(),
    {
        let ghost before = self.queue@;
        let ghost mut n: int = 0;
        loop
            invariant
                0 <= n <= before.len(),
                self.queue@ == before.skip(n),
                forall|i: int| 0 <= i < n ==> !answers(#[trigger] before[i], pending.id),
                self.request_counter == old(self).request_counter,
                self.server_capabilities == old(self).server_capabilities,
                self.pump_running == old(self).pump_running,
                before == old(self).queue@,
            decreases self.queue@.len(),
        {
            match self.queue.pop_front() {
                None => {
                    proof {
                        lemma_first_answer(before, pending.id, n);
                    }
                    if self.pump_running {
                        return Step::Pending;
                    }
                    return Step::Done(
                        Err(
                            Error::protocol(
                                INTERNAL_ERROR,
                                "Connection closed while waiting for response",
                            ),
                        ),
                    );
                },
                Some(message) => {
                    assert(message == before[n]);
                    assert(self.queue@ == before.skip(n + 1));
                    let step = pending.on_message(message);
                    match step {
                        Step::Pending => {
                            proof {
                                n = n + 1;
                            }
                        },
                        Step::Done(outcome) => {
                            proof {
                                lemma_first_answer(before, pending.id, n);
                            }
                            return Step::Done(outcome);
                        },
                    }
                },
            }
        }
    }

    /// Drains the queue for `pending` as `poll` does, `waited_secs` seconds
    /// after the draining began: a request that is still unanswered then
    /// fails with a timeout once the deadline has been reached.
    pub fn poll_within(&mut self, pending: &PendingRequest, waited_secs: u64) -> (step: Step)
        ensures
            step@ == within_deadline(
                drained(old(self).queue(), pending.id, old(self).pump_running()).0,
                pending.method@,
                waited_secs,
            ),
            final(self).queue() == drained(
                old(self).queue(),
                pending.id,
                old(self).pump_running(),
            ).1,
            final(self).issued() == old(self).issued(),
            final(self).cached() == old(self).cached(),
            final(self).pump_running() == old(self).pump_running(),
    {
        match self.poll(pending) {
            Step::Pending => pending.on_wait(waited_secs),
            Step::Done(outcome) => Step::Done(outcome),
        }
    }

    /// Writes the capability cache, over any earlier value.
    pub(crate) fn cache(&mut self, capabilities: ServerCapabilities)
        ensures
            final(self).cached() == Some(capabilities),
            final(self).issued() == old(self).issued(),
            final(self).queue() == old(self).queue(),
            final(self).pump_running() == old(self).pump_running(),
    {
        self.server_capabilities = Some(capabilities);
    }

    /// The cached capabilities: absent until a handshake has succeeded.
    pub fn capabilities(&self) -> (caps: Option<ServerCapabilities>)
        ensures
            caps == self.cached(),
    {
        self.server_capabilities
    }
}

/// What draining `queue` for the request `id` gives: the step reached and
/// the queue that is left.
pub open spec fn drained(queue: Seq<Message>, id: RequestId, pump_running: bool) -> (
    Option<Result<serde_json::Value, ErrorView>>,
    Seq<Message>,
) {
    let k = first_answer(queue, id);
    if k < queue.len() {
        (decide(id, queue[k]), queue.skip(k + 1))
    } else if pump_running {
        (None, Seq::empty())
    } else {
        (Some(Err(connection_closed())), Seq::empty())
    }
}

} // verus!
