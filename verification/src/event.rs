use vstd::prelude::*;
use vstd::string::StringExecFns;
use chrono::NaiveDateTime;
use crate::error::{Error, PropertyFault};

verus! {

/// chrono's date and time without a time zone. Values of it are carried
/// through unread: nothing is claimed of what one holds.
#[verifier::external_type_specification]
#[verifier::external_body]
pub struct ExNaiveDateTime(chrono::NaiveDateTime);

/// The properties of an event as mathematics: pairs of key and value, in the
/// order in which they were inserted.
pub open spec fn pairs_view(pairs: Seq<(String, String)>) -> Seq<(Seq<char>, Seq<char>)> {
    pairs.map_values(|p: (String, String)| (p.0@, p.1@))
}

/// Whether some pair of `props` has the key `key`.
pub open spec fn has_key(props: Seq<(Seq<char>, Seq<char>)>, key: Seq<char>) -> bool {
    exists|i: int| 0 <= i < props.len() && (#[trigger] props[i]).0 == key
}

/// The names that the envelope itself carries; no property may use one.
pub open spec fn reserved_key(key: Seq<char>) -> bool {
    ||| key == "api_key"@
    ||| key == "event"@
    ||| key == "distinct_id"@
    ||| key == "properties"@
    ||| key == "timestamp"@
}

/// Why `key` cannot be inserted into `props`, or `None` where it can.
pub open spec fn key_fault(props: Seq<(Seq<char>, Seq<char>)>, key: Seq<char>) -> Option<
    PropertyFault,
> {
    if key.len() == 0 {
        Some(PropertyFault::EmptyKey)
    } else if reserved_key(key) {
        Some(PropertyFault::ReservedKey)
    } else if has_key(props, key) {
        Some(PropertyFault::DuplicateKey)
    } else {
        None
    }
}

/// `props` after an attempt to insert `key` with `value`: one pair longer
/// where the key is accepted, unchanged where it is not.
pub open spec fn insert_pair(
    props: Seq<(Seq<char>, Seq<char>)>,
    key: Seq<char>,
    value: Seq<char>,
) -> Seq<(Seq<char>, Seq<char>)> {
    if key_fault(props, key) is None {
        props.push((key, value))
    } else {
        props
    }
}

/// What a property set must satisfy: every key is non-empty and not reserved,
/// and no key occurs twice.
pub open spec fn valid_properties(props: Seq<(Seq<char>, Seq<char>)>) -> bool {
    &&& forall|i: int|
        0 <= i < props.len() ==> (#[trigger] props[i]).0.len() > 0 && !reserved_key(props[i].0)
    &&& forall|i: int, j: int|
        0 <= i < j < props.len() ==> (#[trigger] props[i]).0 != (#[trigger] props[j]).0
}

/// An event as mathematics.
pub struct EventView {
    pub name: Seq<char>,
    pub distinct_id: Seq<char>,
    pub properties: Seq<(Seq<char>, Seq<char>)>,
    pub timestamp: Option<NaiveDateTime>,
}

/// One telemetry record: a name, the subject it pertains to, its properties
/// and the time at which it occurred.
#[derive(Debug)]
pub struct Event {
    name: String,
    distinct_id: String,
    properties: Vec<(String, String)>,
    timestamp: Option<NaiveDateTime>,
}

impl View for Event {
    type V = EventView;

    closed spec fn view(&self) -> EventView {
        EventView {
            name: self.name@,
            distinct_id: self.distinct_id@,
            properties: pairs_view(self.properties@),
            timestamp: self.timestamp,
        }
    }
}

/// Whether `key` is one of the reserved names.
pub fn is_reserved_key(key: &str) -> (reserved: bool)
    ensures
        reserved == reserved_key(key@),
{
    let k = key.to_owned();
    k == String::from_str("api_key") || k == String::from_str("event") || k == String::from_str(
        "distinct_id",
    ) || k == String::from_str("properties") || k == String::from_str("timestamp")
}

/// A copy of a list of pairs.
pub fn clone_pairs(pairs: &Vec<(String, String)>) -> (copy: Vec<(String, String)>)
    ensures
        pairs_view(copy@) == pairs_view(pairs@),
{
    let mut copy: Vec<(String, String)> = Vec::new();
    let mut i: usize = 0;
    while i < pairs.len()
        invariant
            i <= pairs.len(),
            pairs_view(copy@) == pairs_view(pairs@).subrange(0, i as int),
        decreases pairs.len() - i,
    {
        let ghost before = copy@;
        copy.push((pairs[i].0.clone(), pairs[i].1.clone()));
        assert(pairs_view(copy@) =~= pairs_view(before).push((pairs[i as int].0@, pairs[i as int].1@)));
        assert(pairs_view(copy@) =~= pairs_view(pairs@).subrange(0, i + 1));
        i += 1;
    }
    assert(pairs_view(pairs@).subrange(0, i as int) =~= pairs_view(pairs@));
    copy
}

impl Event {
    /// Whether the event's properties are a valid property set. Every event
    /// that this library makes is well formed.
    pub open spec fn wf(&self) -> bool {
        valid_properties(self@.properties)
    }

    /// An event with no properties and no timestamp.
    pub fn new(name: &str, distinct_id: &str) -> (event: Event)
        ensures
            event.wf(),
            event@ == (EventView {
                name: name@,
                distinct_id: distinct_id@,
                properties: Seq::empty(),
                timestamp: None,
            }),
    {
        let event = Event {
            name: name.to_owned(),
            distinct_id: distinct_id.to_owned(),
            properties: Vec::new(),
            timestamp: None,
        };
        assert(event@.properties =~= Seq::empty());
        event
    }

    /// Whether the event holds a property under `key`.
    pub fn contains_key(&self, key: &str) -> (found: bool)
        ensures
            found == has_key(self@.properties, key@),
    {
        let k = key.to_owned();
        let mut i: usize = 0;
        while i < self.properties.len()
            invariant
                i <= self.properties.len(),
                k@ == key@,
                forall|j: int| 0 <= j < i ==> (#[trigger] pairs_view(self.properties@)[j]).0 != key@,
            decreases self.properties.len() - i,
        {
            if self.properties[i].0 == k {
                assert(pairs_view(self.properties@)[i as int].0 == key@);
                return true;
            }
            i += 1;
        }
        false
    }

    /// Adds one property. An empty key, a reserved key and a key that the
    /// event already holds are refused, and the event is then unchanged: the
    /// first value written under a key stays.
    pub fn insert_property(&mut self, key: &str, value: &str) -> (result: Result<(), Error>)
        requires
            old(self).wf(),
        ensures
            final(self).wf(),
            final(self)@ == (EventView {
                properties: insert_pair(old(self)@.properties, key@, value@),
                ..old(self)@
            }),
            match key_fault(old(self)@.properties, key@) {
                Some(fault) => result == Err::<(), Error>(Error::InvalidProperty(fault)),
                None => result is Ok,
            },
    {
        if key.is_empty() {
            return Err(Error::InvalidProperty(PropertyFault::EmptyKey));
        }
        if is_reserved_key(key) {
            return Err(Error::InvalidProperty(PropertyFault::ReservedKey));
        }
        if self.contains_key(key) {
            return Err(Error::InvalidProperty(PropertyFault::DuplicateKey));
        }
        let ghost before = self.properties@;
        self.properties.push((key.to_owned(), value.to_owned()));
        assert(pairs_view(self.properties@) =~= pairs_view(before).push((key@, value@)));
        Ok(())
    }

    /// The value held under `key`, if there is one.
    pub fn property(&self, key: &str) -> (value: Option<&String>)
        ensures
            match value {
                Some(v) => exists|i: int|
                    0 <= i < self@.properties.len() && #[trigger] self@.properties[i] == (key@, v@),
                None => !has_key(self@.properties, key@),
            },
    {
        let k = key.to_owned();
        let mut i: usize = 0;
        while i < self.properties.len()
            invariant
                i <= self.properties.len(),
                k@ == key@,
                forall|j: int| 0 <= j < i ==> (#[trigger] pairs_view(self.properties@)[j]).0 != key@,
            decreases self.properties.len() - i,
        {
            if self.properties[i].0 == k {
                assert(self@.properties[i as int] == (key@, self.properties[i as int].1@));
                return Some(&self.properties[i].1);
            }
            i += 1;
        }
        None
    }

    /// Sets the time at which the event occurred, over any earlier one.
    pub fn set_timestamp(&mut self, time: NaiveDateTime)
        ensures
            final(self)@ == (EventView { timestamp: Some(time), ..old(self)@ }),
    {
        self.timestamp = Some(time);
    }

    /// The event's name.
    pub fn name(&self) -> (name: &String)
        ensures
            name@ == self@.name,
    {
        &self.name
    }

    /// The subject that the event pertains to.
    pub fn distinct_id(&self) -> (id: &String)
        ensures
            id@ == self@.distinct_id,
    {
        &self.distinct_id
    }

    /// The properties, in the order of their insertion.
    pub fn properties(&self) -> (pairs: &Vec<(String, String)>)
        ensures
            pairs_view(pairs@) == self@.properties,
            pairs@.len() == self@.properties.len(),
    {
        &self.properties
    }

    /// The time at which the event occurred, if one was set.
    pub fn timestamp(&self) -> (time: Option<NaiveDateTime>)
        ensures
            time == self@.timestamp,
    {
        self.timestamp
    }
}

/// An empty key is refused, whatever the properties hold, and they stay as
/// they were.
pub proof fn lemma_empty_key_is_refused(
    props: Seq<(Seq<char>, Seq<char>)>,
    key: Seq<char>,
    value: Seq<char>,
)
    requires
        key.len() == 0,
    ensures
        key_fault(props, key) == Some(PropertyFault::EmptyKey),
        insert_pair(props, key, value) == props,
{
}

/// Of two insertions under one key the second is refused and changes
/// nothing. Where the first was accepted, the second is refused as a
/// duplicate and the key still holds the first value, and no other.
pub proof fn lemma_first_write_wins(
    props: Seq<(Seq<char>, Seq<char>)>,
    key: Seq<char>,
    first: Seq<char>,
    second: Seq<char>,
)
    requires
        valid_properties(props),
    ensures
        ({
            let once = insert_pair(props, key, first);
            let twice = insert_pair(once, key, second);
            &&& valid_properties(once)
            &&& key_fault(once, key) is Some
            &&& twice == once
            &&& key_fault(props, key) is None ==> {
                &&& key_fault(once, key) == Some(PropertyFault::DuplicateKey)
                &&& once.len() == props.len() + 1
                &&& once.last() == (key, first)
                &&& forall|i: int|
                    0 <= i < twice.len() && (#[trigger] twice[i]).0 == key ==> twice[i].1 == first
            }
        }),
{
    let once = insert_pair(props, key, first);
    if key_fault(props, key) is None {
        assert(once[props.len() as int].0 == key);
        assert(has_key(once, key));
        assert forall|i: int| 0 <= i < once.len() && (#[trigger] once[i]).0 == key implies once[i].1
            == first by {
            if i < props.len() {
                assert(props[i].0 == key);
            }
        }
    }
}

impl Clone for Event {
    fn clone(&self) -> (copy: Event)
        ensures
            copy@ == self@,
    {
        Event {
            name: self.name.clone(),
            distinct_id: self.distinct_id.clone(),
            properties: clone_pairs(&self.properties),
            timestamp: self.timestamp,
        }
    }
}

} // verus!
