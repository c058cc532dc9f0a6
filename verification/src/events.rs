//! The event type hierarchy and its mathematical model.
//!
//! Every state-changing action of the surrounding compression engine is
//! reported as an [`AccountCompressionEvent`]. One variant,
//! [`AccountCompressionEvent::ApplicationData`], carries an arbitrary,
//! caller-supplied byte payload under an explicit format version tag; the
//! other variant belongs to the engine itself and is carried here as the
//! engine's own already-encoded bytes, opaque to this crate.

use vstd::prelude::*;

verus! {

/// First (and currently only) application-data format version: a single
/// unconstrained byte sequence that this crate transports without reading it.
///
/// New format versions must be added as new [`ApplicationDataEvent`]
/// variants; the shape of this one never changes.
#[derive(Clone, Debug, PartialEq, Eq)]
pub struct ApplicationDataEventV1 {
    pub application_data: Vec<u8>,
}

impl View for ApplicationDataEventV1 {
    type V = Seq<u8>;

    open spec fn view(&self) -> Seq<u8> {
        self.application_data@
    }
}

/// Application data keyed by format version.
#[derive(Clone, Debug, PartialEq, Eq)]
pub enum ApplicationDataEvent {
    V1(ApplicationDataEventV1),
}

/// Mathematical model of [`ApplicationDataEvent`]: the payload bytes under
/// their version.
pub enum ApplicationDataEventView {
    V1(Seq<u8>),
}

impl View for ApplicationDataEvent {
    type V = ApplicationDataEventView;

    open spec fn view(&self) -> ApplicationDataEventView {
        match self {
            ApplicationDataEvent::V1(v) => ApplicationDataEventView::V1(v@),
        }
    }
}

/// A lifecycle event of the compression engine.
#[derive(Clone, Debug, PartialEq, Eq)]
pub enum AccountCompressionEvent {
    /// Owned and encoded by the compression engine; opaque to this crate
    /// beyond its stable encoding tag.
    ChangeLog(Vec<u8>),
    /// A caller-supplied payload, wrapped under a format version.
    ApplicationData(ApplicationDataEvent),
}

/// Mathematical model of [`AccountCompressionEvent`].
pub enum AccountCompressionEventView {
    ChangeLog(Seq<u8>),
    ApplicationData(ApplicationDataEventView),
}

impl View for AccountCompressionEvent {
    type V = AccountCompressionEventView;

    open spec fn view(&self) -> AccountCompressionEventView {
        match self {
            AccountCompressionEvent::ChangeLog(bytes) => AccountCompressionEventView::ChangeLog(bytes@),
            AccountCompressionEvent::ApplicationData(a) => AccountCompressionEventView::ApplicationData(a@),
        }
    }
}

/// The two ways delivering an event can fail. Neither is retried: both abort
/// the enclosing unit of work.
#[derive(Clone, Copy, Debug, PartialEq, Eq, Structural)]
pub enum EventError {
    /// The event value cannot be represented in the envelope format.
    SerializationFailure,
    /// The call-out to the event target did not complete.
    DispatchFailure,
}

/// Lifts an arbitrary byte payload into the event hierarchy under the most
/// recent application-data format version. Pure value construction: no
/// side effects, and the payload is taken verbatim.
pub fn wrap_application_data(payload: Vec<u8>) -> (e: AccountCompressionEvent)
    ensures
        e@ == AccountCompressionEventView::ApplicationData(ApplicationDataEventView::V1(payload@)),
{
    AccountCompressionEvent::ApplicationData(ApplicationDataEvent::V1(ApplicationDataEventV1 {
        application_data: payload,
    }))
}

} // verus!
