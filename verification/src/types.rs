//! Event types and the property map they carry.

use vstd::prelude::*;

verus! {

/// Source type for events.
#[derive(Debug, Clone)]
pub enum SourceType {
    Server,
}

/// Journey stage values.
#[derive(Debug, Clone)]
pub enum JourneyStage {
    Activated,
    Engaged,
    Inactive,
}

/// Billing status values.
#[derive(Debug, Clone)]
pub enum BillingStatus {
    Trialing,
    Paid,
    Churned,
}

/// A property value attached to an event: the subset of JSON values the
/// client itself produces and reasons about.
#[derive(Debug, Clone, PartialEq, Eq)]
pub enum PropValue {
    Null,
    Bool(bool),
    Int(i64),
    Str(String),
}

/// The mathematical value of a `PropValue`: strings become character
/// sequences, everything else is carried as is.
pub enum PropValueView {
    Null,
    Bool(bool),
    Int(int),
    Str(Seq<char>),
}

impl View for PropValue {
    type V = PropValueView;

    open spec fn view(&self) -> PropValueView {
        match self {
            PropValue::Null => PropValueView::Null,
            PropValue::Bool(b) => PropValueView::Bool(*b),
            PropValue::Int(i) => PropValueView::Int(*i as int),
            PropValue::Str(s) => PropValueView::Str(s@),
        }
    }
}

/// The binding for `k` in a sequence of key/value pairs, taking the binding
/// added last when a key occurs more than once.
pub open spec fn prop_lookup(
    s: Seq<(Seq<char>, PropValueView)>,
    k: Seq<char>,
) -> Option<PropValueView>
    decreases s.len(),
{
    if s.len() == 0 {
        None
    } else if s.last().0 == k {
        Some(s.last().1)
    } else {
        prop_lookup(s.drop_last(), k)
    }
}

/// Adding a binding changes the lookup of exactly the key it binds.
pub proof fn lemma_prop_lookup_push(
    s: Seq<(Seq<char>, PropValueView)>,
    key: Seq<char>,
    value: PropValueView,
    k: Seq<char>,
)
    ensures
        prop_lookup(s.push((key, value)), k) == if k == key {
            Some(value)
        } else {
            prop_lookup(s, k)
        },
{
    assert(s.push((key, value)).drop_last() =~= s);
}

/// Properties attached to an event: an ordered list of key/value bindings
/// where the binding added last for a key wins.
#[derive(Debug, Clone)]
pub struct Properties {
    entries: Vec<(String, PropValue)>,
}

impl View for Properties {
    type V = Seq<(Seq<char>, PropValueView)>;

    closed spec fn view(&self) -> Seq<(Seq<char>, PropValueView)> {
        self.entries@.map(|i: int, e: (String, PropValue)| (e.0@, e.1@))
    }
}

impl Properties {
    /// Create an empty property map.
    pub fn new() -> (r: Properties)
        ensures
            r@ == Seq::<(Seq<char>, PropValueView)>::empty(),
    {
        let r = Properties { entries: Vec::new() };
        proof {
            assert(r@ =~= Seq::<(Seq<char>, PropValueView)>::empty());
        }
        r
    }

    /// The number of bindings held (bindings shadowed by a later one for the
    /// same key are still counted).
    pub fn len(&self) -> (r: usize)
        ensures
            r == self@.len(),
    {
        self.entries.len()
    }

    /// True iff no binding was ever added.
    pub fn is_empty(&self) -> (r: bool)
        ensures
            r == (self@.len() == 0),
    {
        self.entries.len() == 0
    }

    /// Add a binding; it shadows any earlier binding of the same key.
    pub fn insert(&mut self, key: String, value: PropValue)
        ensures
            final(self)@ == old(self)@.push((key@, value@)),
    {
        let ghost prev = self@;
        let ghost pair = (key@, value@);
        self.entries.push((key, value));
        proof {
            assert(final(self)@ =~= prev.push(pair));
        }
    }

    /// Look a key up, returning the binding added last for it.
    pub fn get(&self, key: &str) -> (r: Option<&PropValue>)
        ensures
            match r {
                Some(v) => prop_lookup(self@, key@) == Some(v@),
                None => prop_lookup(self@, key@) is None,
            },
    {
        let k: String = key.to_owned();
        let mut i: usize = self.entries.len();
        proof {
            assert(self@.take(i as int) =~= self@);
        }
        while i > 0
            invariant
                i <= self.entries.len(),
                k@ == key@,
                prop_lookup(self@, key@) == prop_lookup(self@.take(i as int), key@),
            decreases i,
        {
            i = i - 1;
            if self.entries[i].0 == k {
                return Some(&self.entries[i].1);
            }
            proof {
                assert(self@.take(i + 1 as int).drop_last() =~= self@.take(i as int));
            }
        }
        None
    }

    /// The bindings in the order they were added, for callers that have to
    /// walk them (for example to render the map).
    pub fn entries(&self) -> (r: &Vec<(String, PropValue)>)
        ensures
            r@.map(|i: int, e: (String, PropValue)| (e.0@, e.1@)) == self@,
    {
        &self.entries
    }
}

/// Custom event data.
#[derive(Debug, Clone)]
pub struct CustomEventData {
    pub timestamp: i64,
    pub url: String,
    pub path: String,
    pub event_name: String,
    pub properties: Option<Properties>,
}

/// Identify event data.
#[derive(Debug, Clone)]
pub struct IdentifyEventData {
    pub timestamp: i64,
    pub url: String,
    pub path: String,
    pub email: Option<String>,
    pub user_id: Option<String>,
    pub fingerprint: Option<String>,
    pub traits: Option<Properties>,
}

/// Stage event data.
#[derive(Debug, Clone)]
pub struct StageEventData {
    pub timestamp: i64,
    pub url: String,
    pub path: String,
    pub stage: JourneyStage,
    pub properties: Option<Properties>,
}

/// Billing event data.
#[derive(Debug, Clone)]
pub struct BillingEventData {
    pub timestamp: i64,
    pub url: String,
    pub path: String,
    pub status: BillingStatus,
    pub customer_id: Option<String>,
    pub stripe_customer_id: Option<String>,
    pub domain: Option<String>,
    pub properties: Option<Properties>,
}

/// All event types.
#[derive(Debug, Clone)]
pub enum TrackerEvent {
    Custom(CustomEventData),
    Identify(IdentifyEventData),
    Stage(StageEventData),
    Billing(BillingEventData),
}

/// Payload sent to the ingest API.
#[derive(Debug, Clone)]
pub struct IngestPayload {
    pub source: SourceType,
    pub events: Vec<TrackerEvent>,
}

/// Response from the ingest API.
#[derive(Debug, Clone)]
pub struct IngestResponse {
    pub success: bool,
    pub processed: u32,
    pub errors: Option<Vec<IngestError>>,
}

/// Error from the ingest API.
#[derive(Debug, Clone)]
pub struct IngestError {
    pub index: usize,
    pub message: String,
}

} // verus!
