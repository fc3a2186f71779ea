use vstd::prelude::*;

use crate::flow::{flow_name, Flow};
use crate::text::copy_option_text;

verus! {

/// How the caller of an API transaction authenticated.
#[derive(Clone, Debug, PartialEq, Eq)]
pub enum AuthenticationType {
    ApiKey { merchant_id: String, key_id: String },
    AdminApiKey,
    AdminApiAuthWithMerchantId { merchant_id: String },
    MerchantJwt { merchant_id: String, user_id: Option<String> },
    PublishableKey { merchant_id: String },
    WebhookAuth { merchant_id: String },
    NoAuth,
}

/// The closed set of domain sub-events that an API event can carry.
#[derive(Clone, Debug, PartialEq, Eq)]
pub enum ApiEventsType {
    Miscellaneous,
    Mandate { mandate_id: String },
    Dispute { dispute_id: String },
    Poll { poll_id: String },
    PaymentRedirectionResponse { connector: Option<String>, payment_id: Option<String> },
}

/// The partitions of the durable event log.
#[derive(Clone, Copy, Debug, PartialEq, Eq, Structural)]
pub enum EventType {
    PaymentIntent,
    PaymentAttempt,
    Refund,
    ApiLogs,
    ConnectorApiLogs,
    OutgoingWebhookLogs,
    Dispute,
}

/// What the transport layer knows of the inbound call.
#[derive(Clone, Debug)]
pub struct RequestContext {
    pub url_path: String,
    pub ip_addr: Option<String>,
    pub user_agent: Option<String>,
}

/// Relies on time's `OffsetDateTime::now_utc`, read as nanoseconds since the
/// Unix epoch: the current instant, of which nothing can be promised.
#[verifier::external_body]
fn now_unix_timestamp_nanos() -> (r: i128) {
    time::OffsetDateTime::now_utc().unix_timestamp_nanos()
}

/// The immutable record of one completed API transaction. Its fields are
/// set once, by the constructors, and only read afterwards.
#[derive(Clone, Debug, PartialEq, Eq)]
pub struct ApiEvent {
    tenant_id: String,
    merchant_id: Option<String>,
    api_flow: String,
    created_at_timestamp: i128,
    request_id: String,
    latency: u128,
    status_code: i64,
    auth_type: AuthenticationType,
    request: String,
    user_agent: Option<String>,
    ip_addr: Option<String>,
    url_path: String,
    response: Option<String>,
    error: Option<String>,
    event_type: ApiEventsType,
    hs_latency: Option<u128>,
    http_method: String,
    infra_components: Option<String>,
}

/// The contents of an `ApiEvent`, as contracts speak of them.
pub struct ApiEventFields {
    pub tenant_id: String,
    pub merchant_id: Option<String>,
    pub api_flow: String,
    pub created_at_timestamp: i128,
    pub request_id: String,
    pub latency: u128,
    pub status_code: i64,
    pub auth_type: AuthenticationType,
    pub request: String,
    pub user_agent: Option<String>,
    pub ip_addr: Option<String>,
    pub url_path: String,
    pub response: Option<String>,
    pub error: Option<String>,
    pub event_type: ApiEventsType,
    pub hs_latency: Option<u128>,
    pub http_method: String,
    pub infra_components: Option<String>,
}

impl View for ApiEvent {
    type V = ApiEventFields;

    closed spec fn view(&self) -> ApiEventFields {
        ApiEventFields {
            tenant_id: self.tenant_id,
            merchant_id: self.merchant_id,
            api_flow: self.api_flow,
            created_at_timestamp: self.created_at_timestamp,
            request_id: self.request_id,
            latency: self.latency,
            status_code: self.status_code,
            auth_type: self.auth_type,
            request: self.request,
            user_agent: self.user_agent,
            ip_addr: self.ip_addr,
            url_path: self.url_path,
            response: self.response,
            error: self.error,
            event_type: self.event_type,
            hs_latency: self.hs_latency,
            http_method: self.http_method,
            infra_components: self.infra_components,
        }
    }
}

impl ApiEvent {
    /// Builds the event of a transaction that completed at `now_nanos`
    /// nanoseconds after the Unix epoch, kept at that precision; every other
    /// field is taken as given.
    pub fn new_at(
        tenant_id: String,
        merchant_id: Option<String>,
        api_flow: &Flow,
        request_id: String,
        latency: u128,
        status_code: i64,
        request: String,
        response: Option<String>,
        hs_latency: Option<u128>,
        auth_type: AuthenticationType,
        error: Option<String>,
        event_type: ApiEventsType,
        http_req: &RequestContext,
        http_method: String,
        infra_components: Option<String>,
        now_nanos: i128,
    ) -> (r: ApiEvent)
        ensures
            r@.created_at_timestamp == now_nanos,
            r@.tenant_id == tenant_id,
            r@.merchant_id == merchant_id,
            r@.api_flow@ == flow_name(*api_flow),
            r@.request_id == request_id,
            r@.latency == latency,
            r@.status_code == status_code,
            r@.request == request,
            r@.response == response,
            r@.hs_latency == hs_latency,
            r@.auth_type == auth_type,
            r@.error == error,
            r@.event_type == event_type,
            r@.url_path == http_req.url_path,
            r@.ip_addr == http_req.ip_addr,
            r@.user_agent == http_req.user_agent,
            r@.http_method == http_method,
            r@.infra_components == infra_components,
    {
        ApiEvent {
            tenant_id,
            merchant_id,
            api_flow: api_flow.name(),
            created_at_timestamp: now_nanos,
            request_id,
            latency,
            status_code,
            auth_type,
            request,
            user_agent: copy_option_text(&http_req.user_agent),
            ip_addr: copy_option_text(&http_req.ip_addr),
            url_path: http_req.url_path.clone(),
            response,
            error,
            event_type,
            hs_latency,
            http_method,
            infra_components,
        }
    }

    /// Builds the event of a transaction that completes now; only the
    /// creation time depends on the clock.
    pub fn new(
        tenant_id: String,
        merchant_id: Option<String>,
        api_flow: &Flow,
        request_id: String,
        latency: u128,
        status_code: i64,
        request: String,
        response: Option<String>,
        hs_latency: Option<u128>,
        auth_type: AuthenticationType,
        error: Option<String>,
        event_type: ApiEventsType,
        http_req: &RequestContext,
        http_method: String,
        infra_components: Option<String>,
    ) -> (r: ApiEvent)
        ensures
            r@.tenant_id == tenant_id,
            r@.merchant_id == merchant_id,
            r@.api_flow@ == flow_name(*api_flow),
            r@.request_id == request_id,
            r@.latency == latency,
            r@.status_code == status_code,
            r@.request == request,
            r@.response == response,
            r@.hs_latency == hs_latency,
            r@.auth_type == auth_type,
            r@.error == error,
            r@.event_type == event_type,
            r@.url_path == http_req.url_path,
            r@.ip_addr == http_req.ip_addr,
            r@.user_agent == http_req.user_agent,
            r@.http_method == http_method,
            r@.infra_components == infra_components,
    {
        let now = now_unix_timestamp_nanos();
        ApiEvent::new_at(
            tenant_id,
            merchant_id,
            api_flow,
            request_id,
            latency,
            status_code,
            request,
            response,
            hs_latency,
            auth_type,
            error,
            event_type,
            http_req,
            http_method,
            infra_components,
            now,
        )
    }

    /// The log partition that API events go to.
    pub fn event_type(&self) -> (r: EventType)
        ensures
            r == EventType::ApiLogs,
    {
        EventType::ApiLogs
    }

    /// The partition and ordering key: the transaction's correlation id.
    pub fn key(&self) -> (r: String)
        ensures
            r == self@.request_id,
    {
        self.request_id.clone()
    }

    pub fn tenant_id(&self) -> (r: &String)
        ensures
            *r == self@.tenant_id,
    {
        &self.tenant_id
    }

    pub fn merchant_id(&self) -> (r: &Option<String>)
        ensures
            *r == self@.merchant_id,
    {
        &self.merchant_id
    }

    pub fn api_flow(&self) -> (r: &String)
        ensures
            *r == self@.api_flow,
    {
        &self.api_flow
    }

    pub fn created_at_timestamp(&self) -> (r: i128)
        ensures
            r == self@.created_at_timestamp,
    {
        self.created_at_timestamp
    }

    pub fn request_id(&self) -> (r: &String)
        ensures
            *r == self@.request_id,
    {
        &self.request_id
    }

    pub fn latency(&self) -> (r: u128)
        ensures
            r == self@.latency,
    {
        self.latency
    }

    pub fn status_code(&self) -> (r: i64)
        ensures
            r == self@.status_code,
    {
        self.status_code
    }

    pub fn auth_type(&self) -> (r: &AuthenticationType)
        ensures
            *r == self@.auth_type,
    {
        &self.auth_type
    }

    pub fn request(&self) -> (r: &String)
        ensures
            *r == self@.request,
    {
        &self.request
    }

    pub fn user_agent(&self) -> (r: &Option<String>)
        ensures
            *r == self@.user_agent,
    {
        &self.user_agent
    }

    pub fn ip_addr(&self) -> (r: &Option<String>)
        ensures
            *r == self@.ip_addr,
    {
        &self.ip_addr
    }

    pub fn url_path(&self) -> (r: &String)
        ensures
            *r == self@.url_path,
    {
        &self.url_path
    }

    pub fn response(&self) -> (r: &Option<String>)
        ensures
            *r == self@.response,
    {
        &self.response
    }

    pub fn error(&self) -> (r: &Option<String>)
        ensures
            *r == self@.error,
    {
        &self.error
    }

    /// The domain sub-event the transaction carried.
    pub fn api_event_type(&self) -> (r: &ApiEventsType)
        ensures
            *r == self@.event_type,
    {
        &self.event_type
    }

    pub fn hs_latency(&self) -> (r: Option<u128>)
        ensures
            r == self@.hs_latency,
    {
        self.hs_latency
    }

    pub fn http_method(&self) -> (r: &String)
        ensures
            *r == self@.http_method,
    {
        &self.http_method
    }

    pub fn infra_components(&self) -> (r: &Option<String>)
        ensures
            *r == self@.infra_components,
    {
        &self.infra_components
    }
}

} // verus!
