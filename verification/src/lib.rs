//! Outlit analytics client library.
//!
//! The library buffers analytics events in an ordered queue, decides when a
//! batch is ready to be sent, and tracks the one-way shutdown of a client.
//! Everything that makes those decisions is verified; the HTTP delivery and
//! the background timer that drive it live outside the library and call in
//! through the small, fully specified interface here.

use vstd::prelude::*;

mod builders;
mod client;
mod config;
mod error;
mod queue;
mod transport;
pub mod types;

pub use builders::BillingBuilder;
pub use builders::BillingBuilderView;
pub use builders::Identity;
pub use builders::IdentityView;
pub use builders::IdentifyBuilder;
pub use builders::IdentifyBuilderView;
pub use builders::StageBuilder;
pub use builders::StageBuilderView;
pub use builders::TrackBuilder;
pub use builders::TrackBuilderView;
pub use builders::server_url;
pub use builders::spec_opt_prop;
pub use builders::spec_primary_id;
pub use builders::spec_resolved_email;
pub use builders::spec_resolved_fingerprint;
pub use builders::spec_resolved_user_id;
pub use builders::spec_server_url;
pub use transport::ingest_endpoint;
pub use transport::spec_ingest_endpoint;
pub use transport::status_is_success;
pub use client::ClientCore;
pub use client::TickStep;
pub use client::lemma_shutdown_exactly_once;
pub use client::lemma_shutdown_stays_shut;
pub use client::lemma_shutdown_won_at_most_once;
pub use client::shutdown_after;
pub use client::shutdown_call_wins;
pub use config::Config;
pub use config::OutlitBuilder;
pub use config::DEFAULT_API_HOST;
pub use config::DEFAULT_FLUSH_INTERVAL_MS;
pub use config::DEFAULT_MAX_BATCH_SIZE;
pub use config::DEFAULT_TIMEOUT_MS;
pub use error::Error;
pub use queue::EventQueue;
pub use queue::lemma_enqueue_preserves_order;
pub use queue::lemma_requeue_preserves_order;

verus! {

/// Email identity wrapper. Its view is the sequence of characters of the
/// address it holds.
#[derive(Debug, Clone)]
pub struct Email(pub(crate) String);

impl View for Email {
    type V = Seq<char>;

    closed spec fn view(&self) -> Seq<char> {
        self.0@
    }
}

impl Email {
    /// Get the email as a string slice.
    pub fn as_str(&self) -> (r: &str)
        ensures
            r@ == self@,
    {
        self.0.as_str()
    }
}

/// Create an email identity.
pub fn email(e: String) -> (r: Email)
    ensures
        r@ == e@,
{
    Email(e)
}

/// User ID identity wrapper. Its view is the sequence of characters of the
/// identifier it holds.
#[derive(Debug, Clone)]
pub struct UserId(pub(crate) String);

impl View for UserId {
    type V = Seq<char>;

    closed spec fn view(&self) -> Seq<char> {
        self.0@
    }
}

impl UserId {
    /// Get the user ID as a string slice.
    pub fn as_str(&self) -> (r: &str)
        ensures
            r@ == self@,
    {
        self.0.as_str()
    }
}

/// Create a user ID identity.
pub fn user_id(id: String) -> (r: UserId)
    ensures
        r@ == id@,
{
    UserId(id)
}

/// Fingerprint identity wrapper (device identifier). Its view is the
/// sequence of characters of the identifier it holds.
#[derive(Debug, Clone)]
pub struct Fingerprint(pub(crate) String);

impl View for Fingerprint {
    type V = Seq<char>;

    closed spec fn view(&self) -> Seq<char> {
        self.0@
    }
}

impl Fingerprint {
    /// Get the fingerprint as a string slice.
    pub fn as_str(&self) -> (r: &str)
        ensures
            r@ == self@,
    {
        self.0.as_str()
    }
}

/// Create a fingerprint identity (device identifier).
pub fn fingerprint(fp: String) -> (r: Fingerprint)
    ensures
        r@ == fp@,
{
    Fingerprint(fp)
}

} // verus!
