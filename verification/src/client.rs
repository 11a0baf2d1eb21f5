use vstd::prelude::*;
use vstd::string::StringExecFns;
use crate::client_options::{ClientOptions, OptionsView};
use crate::error::{DeliveryFault, Error};
use crate::event::{Event, EventView};

verus! {

/// A list of events as mathematics.
pub open spec fn events_view(events: Seq<Event>) -> Seq<EventView> {
    events.map_values(|e: Event| e@)
}

/// The path of the endpoint that takes one event.
pub open spec fn capture_path() -> Seq<char> {
    "/capture/"@
}

/// The path of the endpoint that takes a batch.
pub open spec fn batch_path() -> Seq<char> {
    "/batch/"@
}

/// The envelope of one event: the event beside the API key.
#[derive(Debug)]
pub struct InnerEvent {
    pub api_key: String,
    pub event: Event,
}

/// An envelope as mathematics.
pub struct EnvelopeView {
    pub api_key: Seq<char>,
    pub event: EventView,
}

impl View for InnerEvent {
    type V = EnvelopeView;

    open spec fn view(&self) -> EnvelopeView {
        EnvelopeView { api_key: self.api_key@, event: self.event@ }
    }
}

impl InnerEvent {
    /// The envelope of `event` under `api_key`.
    pub fn new(event: Event, api_key: String) -> (envelope: InnerEvent)
        ensures
            envelope@ == (EnvelopeView { api_key: api_key@, event: event@ }),
    {
        InnerEvent { api_key, event }
    }
}

/// The envelopes of `events` under `api_key`, in the order of the events.
pub open spec fn envelopes_of(events: Seq<EventView>, api_key: Seq<char>) -> Seq<EnvelopeView> {
    events.map_values(|e: EventView| EnvelopeView { api_key, event: e })
}

/// A list of envelopes as mathematics.
pub open spec fn envelopes_view(envelopes: Seq<InnerEvent>) -> Seq<EnvelopeView> {
    envelopes.map_values(|e: InnerEvent| e@)
}

/// The envelope of a batch: the events' envelopes, in order, beside the API
/// key.
#[derive(Debug)]
pub struct InnerEventBatch {
    pub api_key: String,
    pub batch: Vec<InnerEvent>,
}

/// A batch envelope as mathematics.
pub struct BatchView {
    pub api_key: Seq<char>,
    pub batch: Seq<EnvelopeView>,
}

impl View for InnerEventBatch {
    type V = BatchView;

    open spec fn view(&self) -> BatchView {
        BatchView { api_key: self.api_key@, batch: envelopes_view(self.batch@) }
    }
}

impl InnerEventBatch {
    /// The envelope of `events` under `api_key`: one event envelope for each
    /// event, none left out, none changed, in the same order.
    pub fn new(events: Vec<Event>, api_key: String) -> (envelope: InnerEventBatch)
        ensures
            envelope@ == (BatchView {
                api_key: api_key@,
                batch: envelopes_of(events_view(events@), api_key@),
            }),
    {
        let mut batch: Vec<InnerEvent> = Vec::new();
        let mut i: usize = 0;
        while i < events.len()
            invariant
                i <= events.len(),
                envelopes_view(batch@) == envelopes_of(events_view(events@), api_key@).subrange(
                    0,
                    i as int,
                ),
            decreases events.len() - i,
        {
            let ghost before = batch@;
            let envelope = InnerEvent::new(events[i].clone(), api_key.clone());
            batch.push(envelope);
            assert(envelopes_view(batch@) =~= envelopes_view(before).push(envelope@));
            assert(envelopes_view(batch@) =~= envelopes_of(events_view(events@), api_key@).subrange(
                0,
                i + 1,
            ));
            i += 1;
        }
        assert(envelopes_view(batch@) =~= envelopes_of(events_view(events@), api_key@));
        InnerEventBatch { api_key, batch }
    }
}

/// What is to be posted for one event: the URL and the body.
#[derive(Debug)]
pub struct CaptureRequest {
    pub url: String,
    pub body: InnerEvent,
}

/// What is to be posted for a batch: the URL and the body.
#[derive(Debug)]
pub struct BatchRequest {
    pub url: String,
    pub body: InnerEventBatch,
}

/// What came of one HTTP submission.
#[derive(Clone, Copy, Debug, PartialEq, Eq, Structural)]
pub enum Reply {
    /// The request could not be sent, or no answer could be read.
    Unreachable,
    /// No answer came within the request timeout.
    TimedOut,
    /// The endpoint answered with this status; `body_is_json` says whether
    /// its body could be read as JSON.
    Answered { status: u16, body_is_json: bool },
}

/// The fault that a reply stands for, or `None` where the submission
/// succeeded: an answer with a status from 200 to 299 and a JSON body. The
/// status is judged before the body.
pub open spec fn reply_fault(reply: Reply) -> Option<DeliveryFault> {
    match reply {
        Reply::Unreachable => Some(DeliveryFault::Network),
        Reply::TimedOut => Some(DeliveryFault::Timeout),
        Reply::Answered { status, body_is_json } => if status < 200 || status > 299 {
            Some(DeliveryFault::Status(status))
        } else if !body_is_json {
            Some(DeliveryFault::MalformedResponse)
        } else {
            None
        },
    }
}

/// Judges what came of a submission: success, or the delivery error.
pub fn delivery_result(reply: Reply) -> (result: Result<(), Error>)
    ensures
        match reply_fault(reply) {
            Some(fault) => result == Err::<(), Error>(Error::DeliveryError(fault)),
            None => result is Ok,
        },
{
    match reply {
        Reply::Unreachable => Err(Error::DeliveryError(DeliveryFault::Network)),
        Reply::TimedOut => Err(Error::DeliveryError(DeliveryFault::Timeout)),
        Reply::Answered { status, body_is_json } => {
            if status < 200 || status > 299 {
                Err(Error::DeliveryError(DeliveryFault::Status(status)))
            } else if !body_is_json {
                Err(Error::DeliveryError(DeliveryFault::MalformedResponse))
            } else {
                Ok(())
            }
        },
    }
}

/// The delivery client: it wraps events into what is posted to the endpoint.
/// It keeps no state and retries nothing.
#[derive(Debug)]
pub struct Client {
    options: ClientOptions,
}

impl View for Client {
    type V = OptionsView;

    closed spec fn view(&self) -> OptionsView {
        self.options@
    }
}

impl Client {
    /// The client for `options`.
    pub fn new(options: ClientOptions) -> (client: Client)
        ensures
            client@ == options@,
    {
        Client { options }
    }

    /// The options that the client was made from.
    pub fn options(&self) -> (options: &ClientOptions)
        ensures
            options@ == self@,
    {
        &self.options
    }

    /// The request that submits one event: its envelope under the client's
    /// API key, for the capture endpoint.
    pub fn capture(&self, event: Event) -> (request: CaptureRequest)
        ensures
            request.url@ == self@.api_endpoint + capture_path(),
            request.body@ == (EnvelopeView { api_key: self@.api_key, event: event@ }),
    {
        let url = self.options.endpoint().clone().concat("/capture/");
        CaptureRequest { url, body: InnerEvent::new(event, self.options.api_key().clone()) }
    }

    /// The request that submits a batch: the envelope of all the events, in
    /// their order, under the client's API key, for the batch endpoint.
    pub fn capture_batch(&self, events: Vec<Event>) -> (request: BatchRequest)
        ensures
            request.url@ == self@.api_endpoint + batch_path(),
            request.body@ == (BatchView {
                api_key: self@.api_key,
                batch: envelopes_of(events_view(events@), self@.api_key),
            }),
    {
        let url = self.options.endpoint().clone().concat("/batch/");
        BatchRequest { url, body: InnerEventBatch::new(events, self.options.api_key().clone()) }
    }
}

impl Clone for Client {
    fn clone(&self) -> (copy: Client)
        ensures
            copy@ == self@,
    {
        Client { options: self.options.clone() }
    }
}

} // verus!
