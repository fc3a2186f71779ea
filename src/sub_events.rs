use vstd::prelude::*;

use crate::event::ApiEventsType;
use crate::text::copy_option_text;

verus! {

/// A configuration entry being created or read.
#[derive(Clone, Debug)]
pub struct Config {
    pub key: String,
    pub value: String,
}

/// A change of a configuration entry.
#[derive(Clone, Debug)]
pub struct ConfigUpdate {
    pub key: String,
    pub value: String,
}

/// An upload of a file.
#[derive(Clone, Debug)]
pub struct CreateFileRequest {
    pub file_name: Option<String>,
    pub file_size: u64,
    pub file_type: String,
}

/// A reference to a stored file.
#[derive(Clone, Debug)]
pub struct FileId {
    pub file_id: String,
}

/// Evidence attached to a dispute.
#[derive(Clone, Debug)]
pub struct AttachEvidenceRequest {
    pub dispute_id: String,
    pub evidence_type: String,
    pub file_id: String,
}

/// A reference to a dispute.
#[derive(Clone, Debug)]
pub struct DisputeId {
    pub dispute_id: String,
}

/// A reference to a polling status.
#[derive(Clone, Debug)]
pub struct PollId {
    pub poll_id: String,
}

/// The identifier a payment redirect refers to.
#[derive(Clone, Debug)]
pub enum PaymentIdType {
    PaymentIntentId(String),
    ConnectorTransactionId(String),
    PaymentAttemptId(String),
    PreprocessingId(String),
}

/// The outcome of a customer's return from a connector's redirect.
#[derive(Clone, Debug)]
pub struct PaymentsRedirectResponseData {
    pub connector: Option<String>,
    pub resource_id: PaymentIdType,
}

impl Config {
    pub fn get_api_event_type(&self) -> (r: Option<ApiEventsType>)
        ensures
            r == Some(ApiEventsType::Miscellaneous),
    {
        Some(ApiEventsType::Miscellaneous)
    }
}

impl ConfigUpdate {
    pub fn get_api_event_type(&self) -> (r: Option<ApiEventsType>)
        ensures
            r == Some(ApiEventsType::Miscellaneous),
    {
        Some(ApiEventsType::Miscellaneous)
    }
}

impl CreateFileRequest {
    pub fn get_api_event_type(&self) -> (r: Option<ApiEventsType>)
        ensures
            r == Some(ApiEventsType::Miscellaneous),
    {
        Some(ApiEventsType::Miscellaneous)
    }
}

impl FileId {
    pub fn get_api_event_type(&self) -> (r: Option<ApiEventsType>)
        ensures
            r == Some(ApiEventsType::Miscellaneous),
    {
        Some(ApiEventsType::Miscellaneous)
    }
}

impl AttachEvidenceRequest {
    pub fn get_api_event_type(&self) -> (r: Option<ApiEventsType>)
        ensures
            r == Some(ApiEventsType::Miscellaneous),
    {
        Some(ApiEventsType::Miscellaneous)
    }
}

impl DisputeId {
    pub fn get_api_event_type(&self) -> (r: Option<ApiEventsType>)
        ensures
            r == Some(ApiEventsType::Dispute { dispute_id: self.dispute_id }),
    {
        Some(ApiEventsType::Dispute { dispute_id: self.dispute_id.clone() })
    }
}

impl PollId {
    pub fn get_api_event_type(&self) -> (r: Option<ApiEventsType>)
        ensures
            r == Some(ApiEventsType::Poll { poll_id: self.poll_id }),
    {
        Some(ApiEventsType::Poll { poll_id: self.poll_id.clone() })
    }
}

impl PaymentsRedirectResponseData {
    /// The redirect outcome, with the payment id only where the redirect
    /// names a payment intent.
    pub fn get_api_event_type(&self) -> (r: Option<ApiEventsType>)
        ensures
            r == Some(
                ApiEventsType::PaymentRedirectionResponse {
                    connector: self.connector,
                    payment_id: match self.resource_id {
                        PaymentIdType::PaymentIntentId(id) => Some(id),
                        _ => None,
                    },
                },
            ),
    {
        Some(
            ApiEventsType::PaymentRedirectionResponse {
                connector: copy_option_text(&self.connector),
                payment_id: match &self.resource_id {
                    PaymentIdType::PaymentIntentId(id) => Some(id.clone()),
                    _ => None,
                },
            },
        )
    }
}

} // verus!
