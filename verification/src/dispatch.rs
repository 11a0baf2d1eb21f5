use vstd::prelude::*;
use crate::client::{batch_path, envelopes_of, events_view, BatchRequest, BatchView, Client};
use crate::client_options::OptionsView;
use crate::error::Error;
use crate::event::{
    has_key, insert_pair, key_fault, reserved_key, valid_properties, Event, EventView,
};
use crate::queue::{entries_view, EntryView, EventQueue, QueueEntry};

verus! {

/// The pause between a delivered batch, or a queue found empty, and the next
/// look at the queue, in seconds.
pub const IDLE_PAUSE_SECS: u64 = 1;

/// Where the dispatch loop stands.
#[derive(Clone, Copy, Debug, PartialEq, Eq, Structural)]
pub enum DispatchState {
    /// Nothing is in hand; the queue was empty when last seen.
    Idle,
    /// The queue was drained and its entries wait to be made events.
    Batching,
    /// A batch is being submitted.
    Sending,
    /// The last submission failed; the batch waits for its next attempt.
    Backoff,
}

/// What the loop's driver is to do next.
#[derive(Clone, Copy, Debug, PartialEq, Eq, Structural)]
pub enum Action {
    /// Take the queue and hand it to the handler.
    Drain,
    /// Let the handler make events of the drained entries.
    Build,
    /// Submit the handler's batch and report what came of it.
    Submit,
    /// Wait this long, then report that the time has passed.
    Pause { seconds: u64 },
}

/// The properties that an event gets from a raw list of pairs: each pair is
/// inserted in turn, and one that is refused is left out.
pub open spec fn build_properties(raw: Seq<(Seq<char>, Seq<char>)>) -> Seq<(Seq<char>, Seq<char>)>
    decreases raw.len(),
{
    if raw.len() == 0 {
        Seq::empty()
    } else {
        insert_pair(build_properties(raw.drop_last()), raw.last().0, raw.last().1)
    }
}

/// The event that is made of a queue entry for the subject `distinct_id`.
pub open spec fn build_event(entry: EntryView, distinct_id: Seq<char>) -> EventView {
    EventView {
        name: entry.event_name,
        distinct_id,
        properties: build_properties(entry.properties),
        timestamp: Some(entry.enqueue_time),
    }
}

/// The batch that is made of drained entries: one event for each entry, in
/// the order of the entries.
pub open spec fn build_batch(entries: Seq<EntryView>, distinct_id: Seq<char>) -> Seq<EventView> {
    entries.map_values(|e: EntryView| build_event(e, distinct_id))
}

/// A handler as mathematics.
pub struct HandlerView {
    pub client: OptionsView,
    pub distinct_id: Seq<char>,
    pub retry_delay: u64,
    pub state: DispatchState,
    pub pending: Seq<EntryView>,
    pub batch: Seq<EventView>,
}

/// What holds of a handler in each state: entries are pending only while
/// batching, and a batch is in hand only while sending or backing off.
pub open spec fn valid_handler(m: HandlerView) -> bool {
    match m.state {
        DispatchState::Idle => m.pending.len() == 0 && m.batch.len() == 0,
        DispatchState::Batching => m.pending.len() > 0 && m.batch.len() == 0,
        DispatchState::Sending | DispatchState::Backoff => m.pending.len() == 0 && m.batch.len()
            > 0,
    }
}

/// The action that a state waits for.
pub open spec fn owed(m: HandlerView) -> Action {
    match m.state {
        DispatchState::Idle => Action::Drain,
        DispatchState::Batching => Action::Build,
        DispatchState::Sending => Action::Submit,
        DispatchState::Backoff => Action::Pause { seconds: m.retry_delay },
    }
}

/// The handler, the queue and the action after the handler was shown the
/// queue. An idle handler takes every entry of a queue that holds any and
/// turns to batching; it pauses where the queue is empty. A handler in
/// another state leaves the queue alone.
pub open spec fn after_drain(m: HandlerView, queue: Seq<EntryView>) -> (
    HandlerView,
    Seq<EntryView>,
    Action,
) {
    if m.state != DispatchState::Idle {
        (m, queue, owed(m))
    } else if queue.len() == 0 {
        (m, queue, Action::Pause { seconds: IDLE_PAUSE_SECS })
    } else {
        (
            HandlerView { state: DispatchState::Batching, pending: queue, ..m },
            Seq::empty(),
            Action::Build,
        )
    }
}

/// The handler and the action after the pending entries were made events. A
/// handler that is batching turns to sending, with the batch built of all its
/// pending entries.
pub open spec fn after_build(m: HandlerView) -> (HandlerView, Action) {
    if m.state != DispatchState::Batching {
        (m, owed(m))
    } else {
        (
            HandlerView {
                state: DispatchState::Sending,
                pending: Seq::empty(),
                batch: build_batch(m.pending, m.distinct_id),
                ..m
            },
            Action::Submit,
        )
    }
}

/// The handler, the queue and the action after one whole look at the queue:
/// the drain, and the build where the drain asks for it.
pub open spec fn after_poll(m: HandlerView, queue: Seq<EntryView>) -> (
    HandlerView,
    Seq<EntryView>,
    Action,
) {
    let drained = after_drain(m, queue);
    if drained.2 == Action::Build {
        (after_build(drained.0).0, drained.1, after_build(drained.0).1)
    } else {
        drained
    }
}

/// The handler and the action after a submission was reported. A handler that
/// is sending lets go of a delivered batch and turns idle, with the idle
/// pause; it keeps a failed one as it is and backs off for the retry delay.
pub open spec fn after_delivery(m: HandlerView, delivered: bool) -> (HandlerView, Action) {
    if m.state != DispatchState::Sending {
        (m, owed(m))
    } else if delivered {
        (
            HandlerView { state: DispatchState::Idle, batch: Seq::empty(), ..m },
            Action::Pause { seconds: IDLE_PAUSE_SECS },
        )
    } else {
        (
            HandlerView { state: DispatchState::Backoff, ..m },
            Action::Pause { seconds: m.retry_delay },
        )
    }
}

/// The handler and the action after a pause has passed. A handler that backs
/// off turns to sending again, with the batch that it kept.
pub open spec fn after_pause(m: HandlerView) -> (HandlerView, Action) {
    if m.state != DispatchState::Backoff {
        (m, owed(m))
    } else {
        (HandlerView { state: DispatchState::Sending, ..m }, Action::Submit)
    }
}

/// The handler after `failures` submissions in a row have failed and the
/// pause after each has passed.
pub open spec fn after_failures(m: HandlerView, failures: nat) -> HandlerView
    decreases failures,
{
    if failures == 0 {
        m
    } else {
        after_pause(after_delivery(after_failures(m, (failures - 1) as nat), false).0).0
    }
}

/// The actions that the handler names while `failures` submissions in a row
/// fail: two for each failure, the one after the report and the one after
/// the pause.
pub open spec fn actions_of_failures(m: HandlerView, failures: nat) -> Seq<Action>
    decreases failures,
{
    if failures == 0 {
        Seq::empty()
    } else {
        let before = after_failures(m, (failures - 1) as nat);
        let failed = after_delivery(before, false);
        actions_of_failures(m, (failures - 1) as nat).push(failed.1).push(after_pause(failed.0).1)
    }
}

/// How many of `actions` ask for a submission.
pub open spec fn submissions(actions: Seq<Action>) -> nat
    decreases actions.len(),
{
    if actions.len() == 0 {
        0
    } else if actions.last() == Action::Submit {
        submissions(actions.drop_last()) + 1
    } else {
        submissions(actions.drop_last())
    }
}

/// While a handler is sending, failures change nothing of it: after any
/// number of failed attempts, and the pause after each, it is sending again
/// and holds the same batch of the same events. Each failure is answered by a
/// pause of the retry delay and each such pause by one new submission, so
/// that `failures` failures ask for exactly `failures` submissions more
/// than the first. The success that follows lets the batch go and asks for
/// the idle pause, after which the handler asks for the queue and for no
/// further submission.
pub proof fn lemma_failed_batch_is_resubmitted_unchanged(m: HandlerView, failures: nat)
    requires
        m.state == DispatchState::Sending,
    ensures
        after_failures(m, failures) == m,
        actions_of_failures(m, failures).len() == 2 * failures,
        forall|j: int|
            0 <= j < failures ==> {
                &&& #[trigger] actions_of_failures(m, failures)[2 * j] == Action::Pause {
                    seconds: m.retry_delay,
                }
                &&& actions_of_failures(m, failures)[2 * j + 1] == Action::Submit
            },
        submissions(actions_of_failures(m, failures)) == failures,
        after_delivery(after_failures(m, failures), true) == (
            HandlerView { state: DispatchState::Idle, batch: Seq::empty(), ..m },
            Action::Pause { seconds: IDLE_PAUSE_SECS },
        ),
        after_pause(after_delivery(after_failures(m, failures), true).0) == (
            HandlerView { state: DispatchState::Idle, batch: Seq::empty(), ..m },
            Action::Drain,
        ),
    decreases failures,
{
    if failures > 0 {
        let fewer = (failures - 1) as nat;
        lemma_failed_batch_is_resubmitted_unchanged(m, fewer);
        let earlier = actions_of_failures(m, fewer);
        let pause = Action::Pause { seconds: m.retry_delay };
        let all = actions_of_failures(m, failures);
        assert(all == earlier.push(pause).push(Action::Submit));
        assert(all.drop_last() =~= earlier.push(pause));
        assert(earlier.push(pause).drop_last() =~= earlier);
        assert(submissions(earlier.push(pause)) == submissions(earlier));
        assert forall|j: int| 0 <= j < failures implies {
            &&& #[trigger] all[2 * j] == pause
            &&& all[2 * j + 1] == Action::Submit
        } by {
            if j < fewer {
                assert(earlier[2 * j] == pause);
                assert(earlier[2 * j + 1] == Action::Submit);
            }
        }
    }
}

/// Whether the pair at `j` is the first of `raw` under its key.
pub open spec fn first_of_its_key(raw: Seq<(Seq<char>, Seq<char>)>, j: int) -> bool {
    forall|k: int| 0 <= k < j ==> (#[trigger] raw[k]).0 != raw[j].0
}

/// Whether `pair` stands in `raw` as the first pair under its key.
pub open spec fn is_first_in(raw: Seq<(Seq<char>, Seq<char>)>, pair: (Seq<char>, Seq<char>)) -> bool {
    exists|j: int| 0 <= j < raw.len() && #[trigger] raw[j] == pair && first_of_its_key(raw, j)
}

/// The properties built of any raw list are a valid property set. Nothing in
/// them is made up and the first write wins: each built pair is the first
/// raw pair under its key. Nothing that can be kept is lost: each raw key
/// that is neither empty nor reserved is a built key.
pub proof fn lemma_built_properties_keep_first(raw: Seq<(Seq<char>, Seq<char>)>)
    ensures
        valid_properties(build_properties(raw)),
        build_properties(raw).len() <= raw.len(),
        forall|i: int|
            0 <= i < build_properties(raw).len() ==> is_first_in(
                raw,
                #[trigger] build_properties(raw)[i],
            ),
        forall|j: int|
            0 <= j < raw.len() && (#[trigger] raw[j]).0.len() > 0 && !reserved_key(raw[j].0)
                ==> has_key(build_properties(raw), raw[j].0),
    decreases raw.len(),
{
    if raw.len() > 0 {
        let shorter = raw.drop_last();
        let before = build_properties(shorter);
        let built = build_properties(raw);
        let last = raw.len() - 1;
        let key = raw[last].0;
        lemma_built_properties_keep_first(shorter);
        let accepted = key_fault(before, key) is None;
        assert forall|i: int| 0 <= i < built.len() implies is_first_in(raw, #[trigger] built[i]) by {
            if i < before.len() {
                assert(built[i] == before[i]);
                assert(is_first_in(shorter, before[i]));
                let j = choose|j: int|
                    0 <= j < shorter.len() && #[trigger] shorter[j] == before[i]
                        && first_of_its_key(shorter, j);
                assert(raw[j] == before[i]);
                assert forall|k: int| 0 <= k < j implies (#[trigger] raw[k]).0 != raw[j].0 by {
                    assert(shorter[k].0 != shorter[j].0);
                }
                assert(first_of_its_key(raw, j));
            } else {
                assert(accepted);
                assert(built[i] == raw[last]);
                assert forall|k: int| 0 <= k < last implies (#[trigger] raw[k]).0 != key by {
                    if raw[k].0 == key {
                        assert(shorter[k].0 == key);
                        assert(has_key(before, key));
                    }
                }
                assert(first_of_its_key(raw, last));
            }
        }
        assert forall|j: int|
            0 <= j < raw.len() && (#[trigger] raw[j]).0.len() > 0 && !reserved_key(
                raw[j].0,
            ) implies has_key(built, raw[j].0) by {
            if j < last {
                assert(shorter[j] == raw[j]);
                assert(has_key(before, raw[j].0));
                let i = choose|i: int| 0 <= i < before.len() && (#[trigger] before[i]).0 == raw[j].0;
                assert(built[i].0 == raw[j].0);
            } else if accepted {
                assert(built[before.len() as int].0 == key);
            }
        }
    }
}

/// The event that is made of `entry` for the subject `distinct_id`: it has
/// the entry's name and time, and each of the entry's properties whose key is
/// not refused, the first of each key.
pub fn event_from_entry(entry: &QueueEntry, distinct_id: &str) -> (event: Event)
    ensures
        event.wf(),
        event@ == build_event(entry@, distinct_id@),
{
    let mut event = Event::new(entry.event_name.as_str(), distinct_id);
    let mut i: usize = 0;
    while i < entry.properties.len()
        invariant
            i <= entry.properties.len(),
            event.wf(),
            event@ == (EventView {
                name: entry.event_name@,
                distinct_id: distinct_id@,
                properties: build_properties(entry@.properties.subrange(0, i as int)),
                timestamp: None,
            }),
        decreases entry.properties.len() - i,
    {
        let _ = event.insert_property(
            entry.properties[i].0.as_str(),
            entry.properties[i].1.as_str(),
        );
        proof {
            let upto = entry@.properties.subrange(0, i + 1);
            assert(upto.drop_last() =~= entry@.properties.subrange(0, i as int));
            assert(upto.last() == (entry.properties[i as int].0@, entry.properties[i as int].1@));
        }
        i += 1;
    }
    assert(entry@.properties.subrange(0, i as int) =~= entry@.properties);
    event.set_timestamp(entry.enqueue_time);
    event
}

/// A copy of a batch.
pub fn clone_events(events: &Vec<Event>) -> (copy: Vec<Event>)
    ensures
        events_view(copy@) == events_view(events@),
{
    let mut copy: Vec<Event> = Vec::new();
    let mut i: usize = 0;
    while i < events.len()
        invariant
            i <= events.len(),
            events_view(copy@) == events_view(events@).subrange(0, i as int),
        decreases events.len() - i,
    {
        let ghost before = copy@;
        let event = events[i].clone();
        copy.push(event);
        assert(events_view(copy@) =~= events_view(before).push(event@));
        assert(events_view(copy@) =~= events_view(events@).subrange(0, i + 1));
        i += 1;
    }
    assert(events_view(events@).subrange(0, i as int) =~= events_view(events@));
    copy
}

/// The dispatch loop's state: what it has in hand and what it waits for. Its
/// driver performs each action that the handler names and reports back; the
/// handler decides.
#[derive(Debug)]
pub struct QueueHandler {
    client: Client,
    distinct_id: String,
    retry_delay: u64,
    state: DispatchState,
    pending: Vec<QueueEntry>,
    batch: Vec<Event>,
}

impl View for QueueHandler {
    type V = HandlerView;

    closed spec fn view(&self) -> HandlerView {
        HandlerView {
            client: self.client@,
            distinct_id: self.distinct_id@,
            retry_delay: self.retry_delay,
            state: self.state,
            pending: entries_view(self.pending@),
            batch: events_view(self.batch@),
        }
    }
}

impl QueueHandler {
    /// Whether the handler is as its state demands. Every handler that this
    /// library makes is well formed.
    pub open spec fn wf(&self) -> bool {
        valid_handler(self@)
    }

    /// An idle handler that attributes every event to `distinct_id` and
    /// waits `retry_delay` seconds between two attempts on one batch.
    pub fn new(client: Client, distinct_id: String, retry_delay: u64) -> (handler: QueueHandler)
        ensures
            handler.wf(),
            handler@ == (HandlerView {
                client: client@,
                distinct_id: distinct_id@,
                retry_delay,
                state: DispatchState::Idle,
                pending: Seq::empty(),
                batch: Seq::empty(),
            }),
    {
        let handler = QueueHandler {
            client,
            distinct_id,
            retry_delay,
            state: DispatchState::Idle,
            pending: Vec::new(),
            batch: Vec::new(),
        };
        assert(handler@.pending =~= Seq::empty());
        assert(handler@.batch =~= Seq::empty());
        handler
    }

    /// Where the loop stands.
    pub fn state(&self) -> (state: DispatchState)
        ensures
            state == self@.state,
    {
        self.state
    }

    /// The delivery client that wraps the handler's batches.
    pub fn client(&self) -> (client: &Client)
        ensures
            client@ == self@.client,
    {
        &self.client
    }

    /// The subject that every event is attributed to.
    pub fn distinct_id(&self) -> (id: &String)
        ensures
            id@ == self@.distinct_id,
    {
        &self.distinct_id
    }

    /// The seconds between two attempts on one batch.
    pub fn retry_delay(&self) -> (seconds: u64)
        ensures
            seconds == self@.retry_delay,
    {
        self.retry_delay
    }

    /// The batch in hand: empty unless the handler is sending or backing off.
    pub fn batch(&self) -> (batch: &Vec<Event>)
        ensures
            events_view(batch@) == self@.batch,
            batch@.len() == self@.batch.len(),
    {
        &self.batch
    }

    /// The action that the handler's state waits for.
    pub fn action(&self) -> (action: Action)
        ensures
            action == owed(self@),
    {
        match self.state {
            DispatchState::Idle => Action::Drain,
            DispatchState::Batching => Action::Build,
            DispatchState::Sending => Action::Submit,
            DispatchState::Backoff => Action::Pause { seconds: self.retry_delay },
        }
    }

    /// Shows the queue to the handler. An idle handler empties a queue that
    /// holds entries, keeps them as pending and asks for the build; where
    /// the queue is empty it asks for the idle pause. A handler in another
    /// state does not touch the queue.
    pub fn begin_batch(&mut self, queue: &mut EventQueue) -> (action: Action)
        requires
            old(self).wf(),
        ensures
            final(self).wf(),
            (final(self)@, final(queue)@, action) == after_drain(old(self)@, old(queue)@),
    {
        match self.state {
            DispatchState::Idle => {
                if queue.is_empty() {
                    Action::Pause { seconds: IDLE_PAUSE_SECS }
                } else {
                    self.pending = queue.drain_all();
                    self.state = DispatchState::Batching;
                    Action::Build
                }
            },
            _ => self.action(),
        }
    }

    /// Makes the pending entries the batch: one event for each entry, in
    /// their order; a property that an event refuses is left out and the
    /// event is kept. The handler then asks for the submission.
    pub fn build_batch(&mut self) -> (action: Action)
        requires
            old(self).wf(),
        ensures
            final(self).wf(),
            (final(self)@, action) == after_build(old(self)@),
    {
        match self.state {
            DispatchState::Batching => {
                let mut batch: Vec<Event> = Vec::new();
                let mut i: usize = 0;
                while i < self.pending.len()
                    invariant
                        i <= self.pending.len(),
                        events_view(batch@) == build_batch(
                            entries_view(self.pending@),
                            self.distinct_id@,
                        ).subrange(0, i as int),
                    decreases self.pending.len() - i,
                {
                    let ghost before = batch@;
                    let event = event_from_entry(&self.pending[i], self.distinct_id.as_str());
                    batch.push(event);
                    assert(events_view(batch@) =~= events_view(before).push(event@));
                    assert(events_view(batch@) =~= build_batch(
                        entries_view(self.pending@),
                        self.distinct_id@,
                    ).subrange(0, i + 1));
                    i += 1;
                }
                assert(events_view(batch@) =~= build_batch(
                    entries_view(self.pending@),
                    self.distinct_id@,
                ));
                self.batch = batch;
                self.pending = Vec::new();
                self.state = DispatchState::Sending;
                assert(entries_view(self.pending@) =~= Seq::empty());
                Action::Submit
            },
            _ => self.action(),
        }
    }

    /// One whole look at the queue: the drain, and the build where entries
    /// were taken.
    pub fn poll(&mut self, queue: &mut EventQueue) -> (action: Action)
        requires
            old(self).wf(),
        ensures
            final(self).wf(),
            (final(self)@, final(queue)@, action) == after_poll(old(self)@, old(queue)@),
    {
        let action = self.begin_batch(queue);
        match action {
            Action::Build => self.build_batch(),
            _ => action,
        }
    }

    /// The request for the batch in hand, while the handler is sending: at
    /// every attempt the same events under the same key for the same URL.
    pub fn request(&self) -> (request: Option<BatchRequest>)
        ensures
            match request {
                Some(r) => {
                    &&& self@.state == DispatchState::Sending
                    &&& r.url@ == self@.client.api_endpoint + batch_path()
                    &&& r.body@ == (BatchView {
                        api_key: self@.client.api_key,
                        batch: envelopes_of(self@.batch, self@.client.api_key),
                    })
                },
                None => self@.state != DispatchState::Sending,
            },
    {
        match self.state {
            DispatchState::Sending => Some(self.client.capture_batch(clone_events(&self.batch))),
            _ => None,
        }
    }

    /// Reports what came of the submission. A delivered batch is let go and
    /// the handler turns idle, asking for the idle pause. After a failure of
    /// any kind the batch stays as it is and the handler asks for the retry
    /// delay.
    pub fn on_delivery(&mut self, result: Result<(), Error>) -> (action: Action)
        requires
            old(self).wf(),
        ensures
            final(self).wf(),
            (final(self)@, action) == after_delivery(old(self)@, result is Ok),
    {
        match self.state {
            DispatchState::Sending => {
                match result {
                    Ok(_) => {
                        self.batch = Vec::new();
                        self.state = DispatchState::Idle;
                        assert(events_view(self.batch@) =~= Seq::empty());
                        Action::Pause { seconds: IDLE_PAUSE_SECS }
                    },
                    Err(_) => {
                        self.state = DispatchState::Backoff;
                        Action::Pause { seconds: self.retry_delay }
                    },
                }
            },
            _ => self.action(),
        }
    }

    /// Reports that the pause has passed. A handler that backs off submits
    /// its batch again, unchanged; an idle one asks for the queue.
    pub fn on_pause_elapsed(&mut self) -> (action: Action)
        requires
            old(self).wf(),
        ensures
            final(self).wf(),
            (final(self)@, action) == after_pause(old(self)@),
    {
        match self.state {
            DispatchState::Backoff => {
                self.state = DispatchState::Sending;
                Action::Submit
            },
            _ => self.action(),
        }
    }
}

} // verus!
