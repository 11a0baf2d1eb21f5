use chrono::{NaiveDate, NaiveDateTime};
use posthog_queue::client::BatchRequest;
use posthog_queue::client_options::ClientOptions;
use posthog_queue::dispatch::{event_from_entry, Action, DispatchState, QueueHandler, IDLE_PAUSE_SECS};
use posthog_queue::error::{DeliveryFault, Error};
use posthog_queue::queue::{EventQueue, QueueEntry};
use posthog_queue::{start_posthog_queue_handler, submit_event_to_queue};

fn at(second: u32) -> NaiveDateTime {
    NaiveDate::from_ymd_opt(2024, 3, 9).unwrap().and_hms_opt(12, 0, second).unwrap()
}

fn pair(key: &str, value: &str) -> (String, String) {
    (key.to_string(), value.to_string())
}

fn handler(distinct_id: &str, retry_delay: u64) -> QueueHandler {
    let mut options = ClientOptions::new("phc_key".to_string());
    options.api_endpoint("http://localhost:8000".to_string());
    start_posthog_queue_handler(options.build(), distinct_id.to_string(), retry_delay)
}

fn failure() -> Result<(), Error> {
    Err(Error::DeliveryError(DeliveryFault::Status(500)))
}

fn summary(request: &BatchRequest) -> Vec<(String, String, Vec<(String, String)>, Option<NaiveDateTime>)> {
    request
        .body
        .batch
        .iter()
        .map(|e| {
            (
                e.event.name().clone(),
                e.event.distinct_id().clone(),
                e.event.properties().clone(),
                e.event.timestamp(),
            )
        })
        .collect()
}

#[test]
fn handler_starts_idle() {
    let h = handler("u1", 4);
    assert_eq!(h.state(), DispatchState::Idle);
    assert_eq!(h.action(), Action::Drain);
    assert_eq!(h.retry_delay(), 4);
    assert!(h.batch().is_empty());
    assert!(h.request().is_none());
    assert_eq!(IDLE_PAUSE_SECS, 1);
}

#[test]
fn empty_queue_keeps_the_handler_idle_and_pauses() {
    let mut h = handler("u1", 4);
    let mut queue = EventQueue::new();
    assert_eq!(h.poll(&mut queue), Action::Pause { seconds: 1 });
    assert_eq!(h.state(), DispatchState::Idle);
    assert!(h.batch().is_empty());
    assert_eq!(h.on_pause_elapsed(), Action::Drain);
    assert_eq!(h.state(), DispatchState::Idle);
    assert_eq!(h.begin_batch(&mut queue), Action::Pause { seconds: 1 });
    assert_eq!(h.state(), DispatchState::Idle);
}

#[test]
fn submitted_events_become_one_batch_payload() {
    let mut queue = EventQueue::new();
    submit_event_to_queue(&mut queue, "signup".to_string(), vec![pair("plan", "pro")]);
    submit_event_to_queue(&mut queue, "login".to_string(), vec![]);
    let mut h = handler("u1", 4);
    assert_eq!(h.poll(&mut queue), Action::Submit);
    assert!(queue.is_empty());
    assert_eq!(h.state(), DispatchState::Sending);
    let request = h.request().unwrap();
    assert_eq!(request.url, "http://localhost:8000/batch/");
    assert_eq!(request.body.api_key, "phc_key");
    assert_eq!(request.body.batch.len(), 2);
    let signup = &request.body.batch[0];
    let login = &request.body.batch[1];
    assert_eq!(signup.api_key, "phc_key");
    assert_eq!(signup.event.name(), "signup");
    assert_eq!(signup.event.distinct_id(), "u1");
    assert_eq!(signup.event.property("plan"), Some(&"pro".to_string()));
    assert_eq!(signup.event.properties(), &vec![pair("plan", "pro")]);
    assert!(signup.event.timestamp().is_some());
    assert_eq!(login.api_key, "phc_key");
    assert_eq!(login.event.name(), "login");
    assert_eq!(login.event.distinct_id(), "u1");
    assert!(login.event.properties().is_empty());
    assert!(login.event.timestamp().is_some());
}

#[test]
fn failed_batch_is_retried_once_and_then_let_go() {
    let mut queue = EventQueue::new();
    queue.enqueue("signup".to_string(), vec![pair("plan", "pro")], at(1));
    queue.enqueue("login".to_string(), vec![], at(2));
    let mut h = handler("u1", 7);
    assert_eq!(h.poll(&mut queue), Action::Submit);
    let first = summary(&h.request().unwrap());
    // the endpoint answers 500
    assert_eq!(h.on_delivery(failure()), Action::Pause { seconds: 7 });
    assert_eq!(h.state(), DispatchState::Backoff);
    assert!(h.request().is_none());
    assert_eq!(h.on_pause_elapsed(), Action::Submit);
    assert_eq!(h.state(), DispatchState::Sending);
    let second = summary(&h.request().unwrap());
    assert_eq!(first, second);
    // the endpoint answers 200
    assert_eq!(h.on_delivery(Ok(())), Action::Pause { seconds: 1 });
    assert_eq!(h.state(), DispatchState::Idle);
    assert!(h.batch().is_empty());
    assert!(h.request().is_none());
    assert_eq!(h.on_pause_elapsed(), Action::Drain);
    assert_eq!(h.poll(&mut queue), Action::Pause { seconds: 1 });
    assert_eq!(h.state(), DispatchState::Idle);
    assert!(h.request().is_none());
}

#[test]
fn batch_is_submitted_once_more_for_each_failure() {
    let k = 5;
    let mut queue = EventQueue::new();
    queue.enqueue("a".to_string(), vec![pair("x", "1"), pair("y", "2")], at(1));
    queue.enqueue("b".to_string(), vec![pair("x", "3")], at(2));
    queue.enqueue("c".to_string(), vec![], at(3));
    let mut h = handler("u9", 3);
    let mut action = h.poll(&mut queue);
    let mut submissions = 0;
    let mut delays = Vec::new();
    let mut payloads = Vec::new();
    let mut steps = 0;
    while steps < 100 {
        steps += 1;
        action = match action {
            Action::Submit => {
                submissions += 1;
                payloads.push(summary(&h.request().unwrap()));
                if submissions <= k {
                    h.on_delivery(failure())
                } else {
                    h.on_delivery(Ok(()))
                }
            }
            Action::Pause { seconds } => {
                delays.push(seconds);
                h.on_pause_elapsed()
            }
            Action::Drain => break,
            Action::Build => h.build_batch(),
        };
    }
    assert_eq!(submissions, k + 1);
    assert_eq!(delays, vec![3, 3, 3, 3, 3, 1]);
    assert_eq!(payloads.len(), 6);
    let expected = vec![
        ("a".to_string(), "u9".to_string(), vec![pair("x", "1"), pair("y", "2")], Some(at(1))),
        ("b".to_string(), "u9".to_string(), vec![pair("x", "3")], Some(at(2))),
        ("c".to_string(), "u9".to_string(), vec![], Some(at(3))),
    ];
    for payload in &payloads {
        assert_eq!(payload, &expected);
    }
    assert_eq!(h.state(), DispatchState::Idle);
}

#[test]
fn entries_submitted_during_backoff_wait_for_the_next_batch() {
    let mut queue = EventQueue::new();
    queue.enqueue("old".to_string(), vec![], at(1));
    let mut h = handler("u1", 4);
    assert_eq!(h.poll(&mut queue), Action::Submit);
    assert_eq!(h.on_delivery(failure()), Action::Pause { seconds: 4 });
    queue.enqueue("new".to_string(), vec![], at(2));
    // a handler that is not idle leaves the queue alone
    assert_eq!(h.poll(&mut queue), Action::Pause { seconds: 4 });
    assert_eq!(queue.len(), 1);
    assert_eq!(h.on_pause_elapsed(), Action::Submit);
    assert_eq!(h.poll(&mut queue), Action::Submit);
    assert_eq!(queue.len(), 1);
    let retried = h.request().unwrap();
    assert_eq!(retried.body.batch.len(), 1);
    assert_eq!(retried.body.batch[0].event.name(), "old");
    assert_eq!(h.on_delivery(Ok(())), Action::Pause { seconds: 1 });
    assert_eq!(h.on_pause_elapsed(), Action::Drain);
    assert_eq!(h.poll(&mut queue), Action::Submit);
    assert!(queue.is_empty());
    let next = h.request().unwrap();
    assert_eq!(next.body.batch.len(), 1);
    assert_eq!(next.body.batch[0].event.name(), "new");
    assert_eq!(next.body.batch[0].event.timestamp(), Some(at(2)));
}

#[test]
fn drain_and_build_are_two_steps() {
    let mut queue = EventQueue::new();
    queue.enqueue("a".to_string(), vec![], at(1));
    let mut h = handler("u1", 4);
    assert_eq!(h.begin_batch(&mut queue), Action::Build);
    assert_eq!(h.state(), DispatchState::Batching);
    assert!(queue.is_empty());
    assert!(h.batch().is_empty());
    assert!(h.request().is_none());
    assert_eq!(h.action(), Action::Build);
    // reports that do not fit the state change nothing
    assert_eq!(h.on_delivery(Ok(())), Action::Build);
    assert_eq!(h.on_pause_elapsed(), Action::Build);
    assert_eq!(h.state(), DispatchState::Batching);
    assert_eq!(h.build_batch(), Action::Submit);
    assert_eq!(h.state(), DispatchState::Sending);
    assert_eq!(h.batch().len(), 1);
    assert_eq!(h.batch()[0].name(), "a");
}

#[test]
fn poll_finishes_a_batch_that_was_begun() {
    let mut queue = EventQueue::new();
    queue.enqueue("a".to_string(), vec![], at(1));
    let mut h = handler("u1", 4);
    assert_eq!(h.begin_batch(&mut queue), Action::Build);
    queue.enqueue("b".to_string(), vec![], at(2));
    assert_eq!(h.poll(&mut queue), Action::Submit);
    assert_eq!(queue.len(), 1);
    assert_eq!(h.batch().len(), 1);
    assert_eq!(h.batch()[0].name(), "a");
}

#[test]
fn reports_that_do_not_fit_the_state_change_nothing() {
    let mut h = handler("u1", 4);
    assert_eq!(h.on_delivery(Ok(())), Action::Drain);
    assert_eq!(h.on_delivery(failure()), Action::Drain);
    assert_eq!(h.build_batch(), Action::Drain);
    assert_eq!(h.state(), DispatchState::Idle);
    let mut queue = EventQueue::new();
    queue.enqueue("a".to_string(), vec![], at(1));
    assert_eq!(h.poll(&mut queue), Action::Submit);
    assert_eq!(h.on_pause_elapsed(), Action::Submit);
    assert_eq!(h.build_batch(), Action::Submit);
    assert_eq!(h.state(), DispatchState::Sending);
    assert_eq!(h.batch().len(), 1);
    assert_eq!(h.on_delivery(failure()), Action::Pause { seconds: 4 });
    assert_eq!(h.on_delivery(Ok(())), Action::Pause { seconds: 4 });
    assert_eq!(h.on_delivery(failure()), Action::Pause { seconds: 4 });
    assert_eq!(h.state(), DispatchState::Backoff);
    assert_eq!(h.batch().len(), 1);
}

#[test]
fn every_kind_of_failure_backs_off() {
    for fault in [
        DeliveryFault::Network,
        DeliveryFault::Timeout,
        DeliveryFault::Status(404),
        DeliveryFault::MalformedResponse,
    ] {
        let mut queue = EventQueue::new();
        queue.enqueue("a".to_string(), vec![], at(1));
        let mut h = handler("u1", 0);
        assert_eq!(h.poll(&mut queue), Action::Submit);
        assert_eq!(h.on_delivery(Err(Error::DeliveryError(fault))), Action::Pause { seconds: 0 });
        assert_eq!(h.state(), DispatchState::Backoff);
    }
}

#[test]
fn refused_properties_are_left_out_and_the_event_is_kept() {
    let entry = QueueEntry {
        event_name: "signup".to_string(),
        properties: vec![
            pair("plan", "pro"),
            pair("", "nameless"),
            pair("plan", "free"),
            pair("distinct_id", "someone"),
            pair("seats", "4"),
            pair("seats", "5"),
        ],
        enqueue_time: at(9),
    };
    let event = event_from_entry(&entry, "u1");
    assert_eq!(event.name(), "signup");
    assert_eq!(event.distinct_id(), "u1");
    assert_eq!(event.properties(), &vec![pair("plan", "pro"), pair("seats", "4")]);
    assert_eq!(event.timestamp(), Some(at(9)));
}

#[test]
fn event_keeps_the_time_of_its_submission() {
    let mut queue = EventQueue::new();
    queue.enqueue("a".to_string(), vec![], at(11));
    queue.enqueue("b".to_string(), vec![], at(5));
    let mut h = handler("u1", 4);
    h.poll(&mut queue);
    assert_eq!(h.batch()[0].timestamp(), Some(at(11)));
    assert_eq!(h.batch()[1].timestamp(), Some(at(5)));
}
