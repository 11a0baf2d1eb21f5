//! An in-process telemetry forwarder: events are buffered in a queue, turned
//! into batches and handed to a remote collection endpoint, with a fixed-delay
//! retry of the same batch while delivery fails.
//!
//! The library decides and computes; its driver does the waiting and the
//! posting. The driver owns the queue behind its lock, performs each
//! [`dispatch::Action`] that the handler names and reports back.

use vstd::prelude::*;

pub mod client;
pub mod client_options;
pub mod config;
pub mod dispatch;
pub mod error;
pub mod event;
pub mod queue;

pub use crate::client::Client;
pub use crate::client_options::ClientOptions;
pub use crate::error::Error;
pub use crate::event::Event;

use crate::client_options::OptionsView;
use crate::config::{
    config_fault, configured_endpoint, configured_retry_delay, configured_timeout, settings,
    Environment,
};
use crate::dispatch::{DispatchState, HandlerView, QueueHandler};
use crate::event::pairs_view;
use crate::queue::{current_time, EntryView, EventQueue};

verus! {

/// Reads the configuration out of `environment` and starts a handler that
/// attributes every event to `distinct_id`. It fails where the API key is
/// missing, or the timeout or the retry delay denotes no number.
pub fn load(distinct_id: String, environment: Environment) -> (result: Result<QueueHandler, Error>)
    ensures
        match config_fault(environment@) {
            Some(fault) => result == Err::<QueueHandler, Error>(Error::ConfigError(fault)),
            None => result is Ok && result->Ok_0.wf() && result->Ok_0@ == (HandlerView {
                client: OptionsView {
                    api_endpoint: configured_endpoint(environment@),
                    api_key: environment@.api_key->Some_0,
                    timeout_millis: configured_timeout(environment@)->Some_0,
                },
                distinct_id: distinct_id@,
                retry_delay: configured_retry_delay(environment@)->Some_0,
                state: DispatchState::Idle,
                pending: Seq::empty(),
                batch: Seq::empty(),
            }),
        },
{
    match settings(environment) {
        Ok(found) => Ok(
            start_posthog_queue_handler(
                found.options.build(),
                distinct_id,
                found.queue_retry_delay,
            ),
        ),
        Err(e) => Err(e),
    }
}

/// Appends an event in its raw form to `queue`, behind the entries that
/// wait, with the present time as the time of its submission. It never
/// fails, and the caller keeps nothing of what it handed in.
pub fn submit_event_to_queue(
    queue: &mut EventQueue,
    event_name: String,
    properties: Vec<(String, String)>,
)
    ensures
        final(queue)@ == old(queue)@.push(
            EntryView {
                event_name: event_name@,
                properties: pairs_view(properties@),
                enqueue_time: final(queue)@.last().enqueue_time,
            },
        ),
{
    let now = current_time();
    queue.enqueue(event_name, properties, now);
}

/// The handler of the dispatch loop at its start: idle, with nothing in
/// hand, waiting to be shown the queue.
pub fn start_posthog_queue_handler(
    client: Client,
    distinct_id: String,
    queue_retry_delay: u64,
) -> (handler: QueueHandler)
    ensures
        handler.wf(),
        handler@ == (HandlerView {
            client: client@,
            distinct_id: distinct_id@,
            retry_delay: queue_retry_delay,
            state: DispatchState::Idle,
            pending: Seq::empty(),
            batch: Seq::empty(),
        }),
{
    QueueHandler::new(client, distinct_id, queue_retry_delay)
}

} // verus!
