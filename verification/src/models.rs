//! The records that the API sends and receives.

use vstd::prelude::*;

verus! {

/// A JSON value as `serde_json` holds it; the library carries it through and
/// never looks inside.
#[verifier::external_type_specification]
#[verifier::external_body]
pub struct ExJsonValue(serde_json::Value);

/// An inbox entry as the API returns it.
pub struct Inbox {
    pub id: u64,
    pub name: String,
    pub source: String,
    pub summary: Option<String>,
    pub payload: serde_json::Value,
    pub metadata: serde_json::Value,
    pub created_at: String,
    pub updated_at: String,
}

/// The fields of a new inbox entry. `payload` and `metadata` are JSON texts.
pub struct CreateInboxBody {
    pub name: String,
    pub source: String,
    pub summary: String,
    pub payload: String,
    pub metadata: String,
}

/// The body of the request that creates an inbox entry.
pub struct CreateInboxRequest {
    pub inbox: CreateInboxBody,
}

/// What a `CreateInboxRequest` sends: the text of each field.
pub struct RequestView {
    pub name: Seq<char>,
    pub source: Seq<char>,
    pub summary: Seq<char>,
    pub payload: Seq<char>,
    pub metadata: Seq<char>,
}

impl View for CreateInboxRequest {
    type V = RequestView;

    open spec fn view(&self) -> RequestView {
        RequestView {
            name: self.inbox.name@,
            source: self.inbox.source@,
            summary: self.inbox.summary@,
            payload: self.inbox.payload@,
            metadata: self.inbox.metadata@,
        }
    }
}

} // verus!
