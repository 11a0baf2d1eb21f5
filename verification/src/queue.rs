use vstd::prelude::*;
use chrono::NaiveDateTime;
use crate::event::pairs_view;

verus! {

/// A queue entry as mathematics.
pub struct EntryView {
    pub event_name: Seq<char>,
    pub properties: Seq<(Seq<char>, Seq<char>)>,
    pub enqueue_time: NaiveDateTime,
}

/// A submitted event in its raw form, before it is made an event: the
/// properties are kept as they were handed in, duplicate keys included.
#[derive(Debug)]
pub struct QueueEntry {
    pub event_name: String,
    pub properties: Vec<(String, String)>,
    pub enqueue_time: NaiveDateTime,
}

impl View for QueueEntry {
    type V = EntryView;

    open spec fn view(&self) -> EntryView {
        EntryView {
            event_name: self.event_name@,
            properties: pairs_view(self.properties@),
            enqueue_time: self.enqueue_time,
        }
    }
}

/// The time of the system clock, in UTC, by chrono's `Utc::now`, and of it
/// the date and time without the zone, by `DateTime::naive_utc`. Nothing is
/// claimed of the value: two readings may differ in any way. chrono gives up
/// on a clock that stands before 1970.
#[verifier::external_body]
pub(crate) fn current_time() -> (now: NaiveDateTime) {
    chrono::Utc::now().naive_utc()
}

/// A list of entries as mathematics.
pub open spec fn entries_view(entries: Seq<QueueEntry>) -> Seq<EntryView> {
    entries.map_values(|e: QueueEntry| e@)
}

/// The buffer of the entries that were submitted and not yet drained, oldest
/// first. It has no capacity bound.
#[derive(Debug)]
pub struct EventQueue {
    entries: Vec<QueueEntry>,
}

impl View for EventQueue {
    type V = Seq<EntryView>;

    closed spec fn view(&self) -> Seq<EntryView> {
        entries_view(self.entries@)
    }
}

impl EventQueue {
    /// An empty queue.
    pub fn new() -> (queue: EventQueue)
        ensures
            queue@ == Seq::<EntryView>::empty(),
    {
        let queue = EventQueue { entries: Vec::new() };
        assert(queue@ =~= Seq::<EntryView>::empty());
        queue
    }

    /// The number of entries that wait.
    pub fn len(&self) -> (n: usize)
        ensures
            n == self@.len(),
    {
        self.entries.len()
    }

    /// Whether no entry waits.
    pub fn is_empty(&self) -> (empty: bool)
        ensures
            empty == (self@.len() == 0),
    {
        self.entries.len() == 0
    }

    /// Appends one entry behind those that wait.
    pub fn enqueue(
        &mut self,
        event_name: String,
        properties: Vec<(String, String)>,
        enqueue_time: NaiveDateTime,
    )
        ensures
            final(self)@ == old(self)@.push(
                EntryView {
                    event_name: event_name@,
                    properties: pairs_view(properties@),
                    enqueue_time,
                },
            ),
    {
        let ghost before = self.entries@;
        let entry = QueueEntry { event_name, properties, enqueue_time };
        self.entries.push(entry);
        assert(entries_view(self.entries@) =~= entries_view(before).push(entry@));
    }

    /// Removes every entry and returns them, oldest first. On an empty queue
    /// that is the empty list.
    pub fn drain_all(&mut self) -> (drained: Vec<QueueEntry>)
        ensures
            entries_view(drained@) == old(self)@,
            drained@.len() == old(self)@.len(),
            final(self)@ == Seq::<EntryView>::empty(),
    {
        let mut drained: Vec<QueueEntry> = Vec::new();
        std::mem::swap(&mut self.entries, &mut drained);
        assert(entries_view(self.entries@) =~= Seq::<EntryView>::empty());
        drained
    }
}

/// The queue that holds `queue` after the entries of `submitted` were
/// appended one by one, first to last.
pub open spec fn enqueue_each(queue: Seq<EntryView>, submitted: Seq<EntryView>) -> Seq<EntryView>
    decreases submitted.len(),
{
    if submitted.len() == 0 {
        queue
    } else {
        enqueue_each(queue, submitted.drop_last()).push(submitted.last())
    }
}

/// Any run of submissions followed by one drain hands back what waited
/// before, then exactly the submitted entries in the order of submission:
/// none lost, none twice.
pub proof fn lemma_drain_returns_submissions_in_order(
    queue: Seq<EntryView>,
    submitted: Seq<EntryView>,
)
    ensures
        enqueue_each(queue, submitted) == queue + submitted,
    decreases submitted.len(),
{
    if submitted.len() == 0 {
        assert(queue + submitted =~= queue);
    } else {
        lemma_drain_returns_submissions_in_order(queue, submitted.drop_last());
        assert(enqueue_each(queue, submitted) =~= queue + submitted);
    }
}

/// On a queue that was empty, the drain that follows a run of submissions
/// returns the submitted entries in their order and nothing else.
pub proof fn lemma_drain_of_fresh_queue(submitted: Seq<EntryView>)
    ensures
        enqueue_each(Seq::empty(), submitted) == submitted,
{
    lemma_drain_returns_submissions_in_order(Seq::empty(), submitted);
    assert(Seq::<EntryView>::empty() + submitted =~= submitted);
}

} // verus!
