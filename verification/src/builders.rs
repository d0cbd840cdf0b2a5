//! Event builders for the fluent API.

use vstd::prelude::*;
use vstd::string::StringExecFns;

use crate::types::BillingEventData;
use crate::types::BillingStatus;
use crate::types::CustomEventData;
use crate::types::IdentifyEventData;
use crate::types::JourneyStage;
use crate::types::PropValue;
use crate::types::PropValueView;
use crate::types::Properties;
use crate::types::StageEventData;
use crate::types::TrackerEvent;
use crate::Email;
use crate::Fingerprint;
use crate::UserId;

verus! {

/// Relies on std::time::SystemTime::now for the current time: milliseconds
/// since the Unix epoch, converted to the integer the event carries. The
/// clock decides the value, so nothing is promised about it.
#[verifier::external_body]
fn now_ms() -> i64 {
    match std::time::SystemTime::now().duration_since(std::time::UNIX_EPOCH) {
        Ok(d) => d.as_millis() as i64,
        Err(_) => 0,
    }
}

/// The characters of an optional string.
pub open spec fn opt_view(o: Option<String>) -> Option<Seq<char>> {
    match o {
        Some(s) => Some(s@),
        None => None,
    }
}

/// The characters of an optional string slice.
pub open spec fn opt_str_view(o: Option<&str>) -> Option<Seq<char>> {
    match o {
        Some(s) => Some(s@),
        None => None,
    }
}

/// The identifier an event is attributed to: the email when one is known,
/// else the user ID, else the fingerprint, else the fixed unknown marker.
pub open spec fn spec_primary_id(
    email: Option<Seq<char>>,
    user_id: Option<Seq<char>>,
    fingerprint: Option<Seq<char>>,
) -> Seq<char> {
    match email {
        Some(e) => e,
        None => match user_id {
            Some(u) => u,
            None => match fingerprint {
                Some(f) => f,
                None => "unknown"@,
            },
        },
    }
}

/// The synthetic URL a server-side event carries for the given identity.
pub open spec fn spec_server_url(
    email: Option<Seq<char>>,
    user_id: Option<Seq<char>>,
    fingerprint: Option<Seq<char>>,
) -> Seq<char> {
    "server://"@ + spec_primary_id(email, user_id, fingerprint)
}

/// Build a server URL from the parts of an identity.
pub fn server_url(email: Option<&str>, user_id: Option<&str>, fingerprint: Option<&str>) -> (r:
    String)
    ensures
        r@ == spec_server_url(opt_str_view(email), opt_str_view(user_id), opt_str_view(fingerprint)),
{
    let id: &str = match email {
        Some(e) => e,
        None => match user_id {
            Some(u) => u,
            None => match fingerprint {
                Some(f) => f,
                None => "unknown",
            },
        },
    };
    let mut url = "server://".to_owned();
    url.append(id);
    url
}

/// Identity for events.
#[derive(Debug, Clone)]
pub enum Identity {
    Email(Email),
    UserId(UserId),
    Fingerprint(Fingerprint),
}

/// The mathematical value of an `Identity`: which kind it is, and the
/// characters of the identifier.
pub enum IdentityView {
    Email(Seq<char>),
    UserId(Seq<char>),
    Fingerprint(Seq<char>),
}

impl View for Identity {
    type V = IdentityView;

    open spec fn view(&self) -> IdentityView {
        match self {
            Identity::Email(e) => IdentityView::Email(e@),
            Identity::UserId(u) => IdentityView::UserId(u@),
            Identity::Fingerprint(f) => IdentityView::Fingerprint(f@),
        }
    }
}

impl From<Email> for Identity {
    fn from(e: Email) -> (r: Identity)
        ensures
            r@ == IdentityView::Email(e@),
    {
        Identity::Email(e)
    }
}

impl vstd::std_specs::convert::FromSpecImpl<Email> for Identity {
    open spec fn obeys_from_spec() -> bool {
        true
    }

    open spec fn from_spec(e: Email) -> Identity {
        Identity::Email(e)
    }
}

impl From<UserId> for Identity {
    fn from(id: UserId) -> (r: Identity)
        ensures
            r@ == IdentityView::UserId(id@),
    {
        Identity::UserId(id)
    }
}

impl vstd::std_specs::convert::FromSpecImpl<UserId> for Identity {
    open spec fn obeys_from_spec() -> bool {
        true
    }

    open spec fn from_spec(id: UserId) -> Identity {
        Identity::UserId(id)
    }
}

impl From<Fingerprint> for Identity {
    fn from(fp: Fingerprint) -> (r: Identity)
        ensures
            r@ == IdentityView::Fingerprint(fp@),
    {
        Identity::Fingerprint(fp)
    }
}

impl vstd::std_specs::convert::FromSpecImpl<Fingerprint> for Identity {
    open spec fn obeys_from_spec() -> bool {
        true
    }

    open spec fn from_spec(fp: Fingerprint) -> Identity {
        Identity::Fingerprint(fp)
    }
}

/// The email an event resolves: the identity when it is an email, else the
/// separately supplied one.
pub open spec fn spec_resolved_email(
    identity: IdentityView,
    additional: Option<Seq<char>>,
) -> Option<Seq<char>> {
    match identity {
        IdentityView::Email(e) => Some(e),
        _ => additional,
    }
}

/// The user ID an event resolves, as `spec_resolved_email`.
pub open spec fn spec_resolved_user_id(
    identity: IdentityView,
    additional: Option<Seq<char>>,
) -> Option<Seq<char>> {
    match identity {
        IdentityView::UserId(u) => Some(u),
        _ => additional,
    }
}

/// The fingerprint an event resolves, as `spec_resolved_email`.
pub open spec fn spec_resolved_fingerprint(
    identity: IdentityView,
    additional: Option<Seq<char>>,
) -> Option<Seq<char>> {
    match identity {
        IdentityView::Fingerprint(f) => Some(f),
        _ => additional,
    }
}

impl Identity {
    /// The email, when this identity is one.
    pub fn email(&self) -> (r: Option<&str>)
        ensures
            opt_str_view(r) == spec_resolved_email(self@, None),
    {
        match self {
            Identity::Email(e) => Some(e.as_str()),
            _ => None,
        }
    }

    /// The user ID, when this identity is one.
    pub fn user_id(&self) -> (r: Option<&str>)
        ensures
            opt_str_view(r) == spec_resolved_user_id(self@, None),
    {
        match self {
            Identity::UserId(u) => Some(u.as_str()),
            _ => None,
        }
    }

    /// The fingerprint, when this identity is one.
    pub fn fingerprint(&self) -> (r: Option<&str>)
        ensures
            opt_str_view(r) == spec_resolved_fingerprint(self@, None),
    {
        match self {
            Identity::Fingerprint(f) => Some(f.as_str()),
            _ => None,
        }
    }
}

/// Resolve an identity together with the separately supplied identifiers
/// into the `(email, user_id, fingerprint)` triple an event carries.
fn resolve_identity(
    identity: Identity,
    additional_email: Option<String>,
    additional_user_id: Option<String>,
    additional_fingerprint: Option<String>,
) -> (r: (Option<String>, Option<String>, Option<String>))
    ensures
        opt_view(r.0) == spec_resolved_email(identity@, opt_view(additional_email)),
        opt_view(r.1) == spec_resolved_user_id(identity@, opt_view(additional_user_id)),
        opt_view(r.2) == spec_resolved_fingerprint(identity@, opt_view(additional_fingerprint)),
{
    match identity {
        Identity::Email(e) => (Some(e.0), additional_user_id, additional_fingerprint),
        Identity::UserId(u) => (additional_email, Some(u.0), additional_fingerprint),
        Identity::Fingerprint(f) => (additional_email, additional_user_id, Some(f.0)),
    }
}

/// Borrow an optional string as an optional slice.
fn opt_as_str(o: &Option<String>) -> (r: Option<&str>)
    ensures
        opt_str_view(r) == opt_view(*o),
{
    match o {
        Some(s) => Some(s.as_str()),
        None => None,
    }
}

/// The property value recording an optional identifier: its text, or null.
pub open spec fn spec_opt_prop(o: Option<Seq<char>>) -> PropValueView {
    match o {
        Some(s) => PropValueView::Str(s),
        None => PropValueView::Null,
    }
}

/// Turn an optional identifier into the property value recording it.
fn opt_prop_value(o: &Option<String>) -> (r: PropValue)
    ensures
        r@ == spec_opt_prop(opt_view(*o)),
{
    match o {
        Some(s) => PropValue::Str(s.clone()),
        None => PropValue::Null,
    }
}

/// The mathematical value of a `TrackBuilder`.
pub struct TrackBuilderView {
    pub event_name: Seq<char>,
    pub identity: IdentityView,
    pub additional_email: Option<Seq<char>>,
    pub additional_user_id: Option<Seq<char>>,
    pub additional_fingerprint: Option<Seq<char>>,
    pub properties: Seq<(Seq<char>, PropValueView)>,
    pub timestamp: Option<i64>,
}

/// Builder for track events.
#[derive(Debug)]
pub struct TrackBuilder {
    event_name: String,
    identity: Identity,
    additional_email: Option<String>,
    additional_user_id: Option<String>,
    additional_fingerprint: Option<String>,
    properties: Properties,
    timestamp: Option<i64>,
}

impl View for TrackBuilder {
    type V = TrackBuilderView;

    closed spec fn view(&self) -> TrackBuilderView {
        TrackBuilderView {
            event_name: self.event_name@,
            identity: self.identity@,
            additional_email: opt_view(self.additional_email),
            additional_user_id: opt_view(self.additional_user_id),
            additional_fingerprint: opt_view(self.additional_fingerprint),
            properties: self.properties@,
            timestamp: self.timestamp,
        }
    }
}

impl TrackBuilder {
    /// Start a track event with the given name and identity.
    pub fn new(event_name: String, identity: Identity) -> (r: TrackBuilder)
        ensures
            r@ == (TrackBuilderView {
                event_name: event_name@,
                identity: identity@,
                additional_email: None,
                additional_user_id: None,
                additional_fingerprint: None,
                properties: Seq::<(Seq<char>, PropValueView)>::empty(),
                timestamp: None,
            }),
    {
        TrackBuilder {
            event_name,
            identity,
            additional_email: None,
            additional_user_id: None,
            additional_fingerprint: None,
            properties: Properties::new(),
            timestamp: None,
        }
    }

    /// Add email (if identity was user_id or fingerprint).
    pub fn email(self, email: String) -> (r: TrackBuilder)
        ensures
            r@ == (TrackBuilderView { additional_email: Some(email@), ..self@ }),
    {
        TrackBuilder { additional_email: Some(email), ..self }
    }

    /// Add user_id (if identity was email or fingerprint).
    pub fn user_id(self, user_id: String) -> (r: TrackBuilder)
        ensures
            r@ == (TrackBuilderView { additional_user_id: Some(user_id@), ..self@ }),
    {
        TrackBuilder { additional_user_id: Some(user_id), ..self }
    }

    /// Add fingerprint (device identifier) to link this event to a device.
    pub fn fingerprint(self, fingerprint: String) -> (r: TrackBuilder)
        ensures
            r@ == (TrackBuilderView { additional_fingerprint: Some(fingerprint@), ..self@ }),
    {
        TrackBuilder { additional_fingerprint: Some(fingerprint), ..self }
    }

    /// Add a property.
    pub fn property(self, key: String, value: PropValue) -> (r: TrackBuilder)
        ensures
            r@ == (TrackBuilderView { properties: self@.properties.push((key@, value@)), ..self@ }),
    {
        let mut b = self;
        b.properties.insert(key, value);
        b
    }

    /// Set custom timestamp (milliseconds since epoch).
    pub fn timestamp(self, ts: i64) -> (r: TrackBuilder)
        ensures
            r@ == (TrackBuilderView { timestamp: Some(ts), ..self@ }),
    {
        TrackBuilder { timestamp: Some(ts), ..self }
    }

    /// Build the event: a custom event named as requested, attributed to the
    /// resolved identity, whose properties are the ones added plus the three
    /// reserved identity bindings. When no timestamp was set the clock
    /// supplies one, and nothing is promised about it.
    pub fn build(self) -> (r: TrackerEvent)
        ensures
            ({
                let em = spec_resolved_email(self@.identity, self@.additional_email);
                let uid = spec_resolved_user_id(self@.identity, self@.additional_user_id);
                let fp = spec_resolved_fingerprint(self@.identity, self@.additional_fingerprint);
                match r {
                    TrackerEvent::Custom(d) => {
                        &&& d.event_name@ == self@.event_name
                        &&& d.path@ == "/"@
                        &&& d.url@ == spec_server_url(em, uid, fp)
                        &&& (match self@.timestamp {
                            Some(t) => d.timestamp == t,
                            None => true,
                        })
                        &&& (match d.properties {
                            Some(p) => p@ == self@.properties.push(
                                ("__email"@, spec_opt_prop(em)),
                            ).push(("__userId"@, spec_opt_prop(uid))).push(
                                ("__fingerprint"@, spec_opt_prop(fp)),
                            ),
                            None => false,
                        })
                    },
                    _ => false,
                }
            }),
    {
        let TrackBuilder {
            event_name,
            identity,
            additional_email,
            additional_user_id,
            additional_fingerprint,
            mut properties,
            timestamp,
        } = self;
        let (email, uid, fp) = resolve_identity(
            identity,
            additional_email,
            additional_user_id,
            additional_fingerprint,
        );
        let url = server_url(opt_as_str(&email), opt_as_str(&uid), opt_as_str(&fp));
        let ts = match timestamp {
            Some(t) => t,
            None => now_ms(),
        };
        properties.insert("__email".to_owned(), opt_prop_value(&email));
        properties.insert("__userId".to_owned(), opt_prop_value(&uid));
        properties.insert("__fingerprint".to_owned(), opt_prop_value(&fp));
        TrackerEvent::Custom(
            CustomEventData {
                timestamp: ts,
                url,
                path: "/".to_owned(),
                event_name,
                properties: Some(properties),
            },
        )
    }
}

/// The mathematical value of an `IdentifyBuilder`.
pub struct IdentifyBuilderView {
    pub identity: IdentityView,
    pub additional_email: Option<Seq<char>>,
    pub additional_user_id: Option<Seq<char>>,
    pub additional_fingerprint: Option<Seq<char>>,
    pub traits: Seq<(Seq<char>, PropValueView)>,
}

/// Builder for identify events.
#[derive(Debug)]
pub struct IdentifyBuilder {
    identity: Identity,
    additional_email: Option<String>,
    additional_user_id: Option<String>,
    additional_fingerprint: Option<String>,
    traits: Properties,
}

impl View for IdentifyBuilder {
    type V = IdentifyBuilderView;

    closed spec fn view(&self) -> IdentifyBuilderView {
        IdentifyBuilderView {
            identity: self.identity@,
            additional_email: opt_view(self.additional_email),
            additional_user_id: opt_view(self.additional_user_id),
            additional_fingerprint: opt_view(self.additional_fingerprint),
            traits: self.traits@,
        }
    }
}

impl IdentifyBuilder {
    /// Start an identify event for the given identity.
    pub fn new(identity: Identity) -> (r: IdentifyBuilder)
        ensures
            r@ == (IdentifyBuilderView {
                identity: identity@,
                additional_email: None,
                additional_user_id: None,
                additional_fingerprint: None,
                traits: Seq::<(Seq<char>, PropValueView)>::empty(),
            }),
    {
        IdentifyBuilder {
            identity,
            additional_email: None,
            additional_user_id: None,
            additional_fingerprint: None,
            traits: Properties::new(),
        }
    }

    /// Add email (if identity was user_id or fingerprint).
    pub fn email(self, email: String) -> (r: IdentifyBuilder)
        ensures
            r@ == (IdentifyBuilderView { additional_email: Some(email@), ..self@ }),
    {
        IdentifyBuilder { additional_email: Some(email), ..self }
    }

    /// Add user_id (if identity was email or fingerprint).
    pub fn user_id(self, user_id: String) -> (r: IdentifyBuilder)
        ensures
            r@ == (IdentifyBuilderView { additional_user_id: Some(user_id@), ..self@ }),
    {
        IdentifyBuilder { additional_user_id: Some(user_id), ..self }
    }

    /// Add fingerprint (device identifier) to link this device to the user.
    pub fn fingerprint(self, fingerprint: String) -> (r: IdentifyBuilder)
        ensures
            r@ == (IdentifyBuilderView { additional_fingerprint: Some(fingerprint@), ..self@ }),
    {
        IdentifyBuilder { additional_fingerprint: Some(fingerprint), ..self }
    }

    /// Add a trait (named trait_ because trait is reserved).
    pub fn trait_(self, key: String, value: PropValue) -> (r: IdentifyBuilder)
        ensures
            r@ == (IdentifyBuilderView { traits: self@.traits.push((key@, value@)), ..self@ }),
    {
        let mut b = self;
        b.traits.insert(key, value);
        b
    }

    /// Build the event: an identify event carrying the resolved identifiers
    /// and the traits added, or no traits when none were. The clock supplies
    /// the timestamp, and nothing is promised about it.
    pub fn build(self) -> (r: TrackerEvent)
        ensures
            ({
                let em = spec_resolved_email(self@.identity, self@.additional_email);
                let uid = spec_resolved_user_id(self@.identity, self@.additional_user_id);
                let fp = spec_resolved_fingerprint(self@.identity, self@.additional_fingerprint);
                match r {
                    TrackerEvent::Identify(d) => {
                        &&& d.path@ == "/"@
                        &&& d.url@ == spec_server_url(em, uid, fp)
                        &&& opt_view(d.email) == em
                        &&& opt_view(d.user_id) == uid
                        &&& opt_view(d.fingerprint) == fp
                        &&& (match d.traits {
                            Some(p) => self@.traits.len() > 0 && p@ == self@.traits,
                            None => self@.traits.len() == 0,
                        })
                    },
                    _ => false,
                }
            }),
    {
        let IdentifyBuilder {
            identity,
            additional_email,
            additional_user_id,
            additional_fingerprint,
            traits,
        } = self;
        let (email, uid, fp) = resolve_identity(
            identity,
            additional_email,
            additional_user_id,
            additional_fingerprint,
        );
        let url = server_url(opt_as_str(&email), opt_as_str(&uid), opt_as_str(&fp));
        let traits_out = if traits.is_empty() {
            None
        } else {
            Some(traits)
        };
        TrackerEvent::Identify(
            IdentifyEventData {
                timestamp: now_ms(),
                url,
                path: "/".to_owned(),
                email,
                user_id: uid,
                fingerprint: fp,
                traits: traits_out,
            },
        )
    }
}

/// The mathematical value of a `StageBuilder`.
pub struct StageBuilderView {
    pub stage: JourneyStage,
    pub identity: IdentityView,
    pub additional_email: Option<Seq<char>>,
    pub additional_user_id: Option<Seq<char>>,
    pub additional_fingerprint: Option<Seq<char>>,
    pub properties: Seq<(Seq<char>, PropValueView)>,
}

/// Builder for stage events.
#[derive(Debug)]
pub struct StageBuilder {
    stage: JourneyStage,
    identity: Identity,
    additional_email: Option<String>,
    additional_user_id: Option<String>,
    additional_fingerprint: Option<String>,
    properties: Properties,
}

impl View for StageBuilder {
    type V = StageBuilderView;

    closed spec fn view(&self) -> StageBuilderView {
        StageBuilderView {
            stage: self.stage,
            identity: self.identity@,
            additional_email: opt_view(self.additional_email),
            additional_user_id: opt_view(self.additional_user_id),
            additional_fingerprint: opt_view(self.additional_fingerprint),
            properties: self.properties@,
        }
    }
}

impl StageBuilder {
    /// Start a stage event marking the given journey stage for the identity.
    pub fn new(stage: JourneyStage, identity: Identity) -> (r: StageBuilder)
        ensures
            r@ == (StageBuilderView {
                stage,
                identity: identity@,
                additional_email: None,
                additional_user_id: None,
                additional_fingerprint: None,
                properties: Seq::<(Seq<char>, PropValueView)>::empty(),
            }),
    {
        StageBuilder {
            stage,
            identity,
            additional_email: None,
            additional_user_id: None,
            additional_fingerprint: None,
            properties: Properties::new(),
        }
    }

    /// Add email (if identity was user_id or fingerprint).
    pub fn email(self, email: String) -> (r: StageBuilder)
        ensures
            r@ == (StageBuilderView { additional_email: Some(email@), ..self@ }),
    {
        StageBuilder { additional_email: Some(email), ..self }
    }

    /// Add user_id (if identity was email or fingerprint).
    pub fn user_id(self, user_id: String) -> (r: StageBuilder)
        ensures
            r@ == (StageBuilderView { additional_user_id: Some(user_id@), ..self@ }),
    {
        StageBuilder { additional_user_id: Some(user_id), ..self }
    }

    /// Add fingerprint (device identifier).
    pub fn fingerprint(self, fingerprint: String) -> (r: StageBuilder)
        ensures
            r@ == (StageBuilderView { additional_fingerprint: Some(fingerprint@), ..self@ }),
    {
        StageBuilder { additional_fingerprint: Some(fingerprint), ..self }
    }

    /// Add a property.
    pub fn property(self, key: String, value: PropValue) -> (r: StageBuilder)
        ensures
            r@ == (StageBuilderView { properties: self@.properties.push((key@, value@)), ..self@ }),
    {
        let mut b = self;
        b.properties.insert(key, value);
        b
    }

    /// Build the event: a stage event for the requested stage, with the
    /// properties added plus the three reserved identity bindings. The clock
    /// supplies the timestamp, and nothing is promised about it.
    pub fn build(self) -> (r: TrackerEvent)
        ensures
            ({
                let em = spec_resolved_email(self@.identity, self@.additional_email);
                let uid = spec_resolved_user_id(self@.identity, self@.additional_user_id);
                let fp = spec_resolved_fingerprint(self@.identity, self@.additional_fingerprint);
                match r {
                    TrackerEvent::Stage(d) => {
                        &&& d.stage == self@.stage
                        &&& d.path@ == "/"@
                        &&& d.url@ == spec_server_url(em, uid, fp)
                        &&& (match d.properties {
                            Some(p) => p@ == self@.properties.push(
                                ("__email"@, spec_opt_prop(em)),
                            ).push(("__userId"@, spec_opt_prop(uid))).push(
                                ("__fingerprint"@, spec_opt_prop(fp)),
                            ),
                            None => false,
                        })
                    },
                    _ => false,
                }
            }),
    {
        let StageBuilder {
            stage,
            identity,
            additional_email,
            additional_user_id,
            additional_fingerprint,
            mut properties,
        } = self;
        let (email, uid, fp) = resolve_identity(
            identity,
            additional_email,
            additional_user_id,
            additional_fingerprint,
        );
        let url = server_url(opt_as_str(&email), opt_as_str(&uid), opt_as_str(&fp));
        properties.insert("__email".to_owned(), opt_prop_value(&email));
        properties.insert("__userId".to_owned(), opt_prop_value(&uid));
        properties.insert("__fingerprint".to_owned(), opt_prop_value(&fp));
        TrackerEvent::Stage(
            StageEventData {
                timestamp: now_ms(),
                url,
                path: "/".to_owned(),
                stage,
                properties: Some(properties),
            },
        )
    }
}

/// The mathematical value of a `BillingBuilder`.
pub struct BillingBuilderView {
    pub status: BillingStatus,
    pub domain: Seq<char>,
    pub customer_id: Option<Seq<char>>,
    pub stripe_customer_id: Option<Seq<char>>,
    pub properties: Seq<(Seq<char>, PropValueView)>,
}

/// Builder for billing events.
#[derive(Debug)]
pub struct BillingBuilder {
    status: BillingStatus,
    domain: String,
    customer_id: Option<String>,
    stripe_customer_id: Option<String>,
    properties: Properties,
}

impl View for BillingBuilder {
    type V = BillingBuilderView;

    closed spec fn view(&self) -> BillingBuilderView {
        BillingBuilderView {
            status: self.status,
            domain: self.domain@,
            customer_id: opt_view(self.customer_id),
            stripe_customer_id: opt_view(self.stripe_customer_id),
            properties: self.properties@,
        }
    }
}

impl BillingBuilder {
    /// Start a billing event for the customer behind the given domain.
    pub fn new(status: BillingStatus, domain: String) -> (r: BillingBuilder)
        ensures
            r@ == (BillingBuilderView {
                status,
                domain: domain@,
                customer_id: None,
                stripe_customer_id: None,
                properties: Seq::<(Seq<char>, PropValueView)>::empty(),
            }),
    {
        BillingBuilder {
            status,
            domain,
            customer_id: None,
            stripe_customer_id: None,
            properties: Properties::new(),
        }
    }

    /// Set customer ID.
    pub fn customer_id(self, id: String) -> (r: BillingBuilder)
        ensures
            r@ == (BillingBuilderView { customer_id: Some(id@), ..self@ }),
    {
        BillingBuilder { customer_id: Some(id), ..self }
    }

    /// Set Stripe customer ID.
    pub fn stripe_customer_id(self, id: String) -> (r: BillingBuilder)
        ensures
            r@ == (BillingBuilderView { stripe_customer_id: Some(id@), ..self@ }),
    {
        BillingBuilder { stripe_customer_id: Some(id), ..self }
    }

    /// Add a property.
    pub fn property(self, key: String, value: PropValue) -> (r: BillingBuilder)
        ensures
            r@ == (BillingBuilderView { properties: self@.properties.push((key@, value@)), ..self@ }),
    {
        let mut b = self;
        b.properties.insert(key, value);
        b
    }

    /// Build the event: a billing event for the requested status and domain,
    /// with the properties added, or none when none were. The clock supplies
    /// the timestamp, and nothing is promised about it.
    pub fn build(self) -> (r: TrackerEvent)
        ensures
            match r {
                TrackerEvent::Billing(d) => {
                    &&& d.status == self@.status
                    &&& d.path@ == "/"@
                    &&& d.url@ == "server://"@ + self@.domain
                    &&& opt_view(d.customer_id) == self@.customer_id
                    &&& opt_view(d.stripe_customer_id) == self@.stripe_customer_id
                    &&& opt_view(d.domain) == Some(self@.domain)
                    &&& (match d.properties {
                        Some(p) => self@.properties.len() > 0 && p@ == self@.properties,
                        None => self@.properties.len() == 0,
                    })
                },
                _ => false,
            },
    {
        let BillingBuilder { status, domain, customer_id, stripe_customer_id, properties } = self;
        let mut url = "server://".to_owned();
        url.append(domain.as_str());
        let properties_out = if properties.is_empty() {
            None
        } else {
            Some(properties)
        };
        TrackerEvent::Billing(
            BillingEventData {
                timestamp: now_ms(),
                url,
                path: "/".to_owned(),
                status,
                customer_id,
                stripe_customer_id,
                domain: Some(domain),
                properties: properties_out,
            },
        )
    }
}

} // verus!
