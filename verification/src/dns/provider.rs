//! The calls that a DNS provider takes, and how they fail.

use crate::api::client::{HttpRequest, HttpRequestView};
use crate::dns::cloudflare::{CloudflareProvider, CloudflareProviderView};
use crate::models::dns::{DnsRecord, DnsRecordView};
use crate::models::domain::{DnsProvider as DnsProviderConfig, DnsProviderView};
use crate::text::join2;
use vstd::prelude::*;
use vstd::string::*;

verus! {

/// One of the four calls that a DNS provider takes.
#[derive(Clone, Copy, Debug, PartialEq, Eq, Structural)]
pub enum DnsCall {
    ListRecords,
    CreateRecord,
    UpdateRecord,
    DeleteRecord,
}

impl DnsCall {
    /// What is said when the call cannot be carried to the provider.
    pub open spec fn transport_message(self) -> Seq<char> {
        match self {
            DnsCall::ListRecords => "Failed to fetch DNS records from Cloudflare"@,
            DnsCall::CreateRecord => "Failed to create DNS record in Cloudflare"@,
            DnsCall::UpdateRecord => "Failed to update DNS record in Cloudflare"@,
            DnsCall::DeleteRecord => "Failed to delete DNS record from Cloudflare"@,
        }
    }
}

/// The failure of a call to a DNS provider.
#[derive(Debug, PartialEq, Eq)]
pub enum ProviderError {
    /// The provider is known but no call to it is implemented; none is
    /// attempted.
    NotImplemented,
    /// The domain's DNS is managed by hand; every call is refused.
    ManualDns,
    /// The record to update has no provider identifier yet.
    MissingRecordId,
    /// The call could not be carried to the provider.
    Transport(DnsCall),
    /// The provider answered with a status outside the 2xx range; the text is
    /// the body of its answer.
    Api(String),
    /// The provider answered well, but not in the expected shape.
    InvalidResponse,
    /// The provider reported errors; the text lists them.
    Rejected(String),
    /// The provider returned a record of a type that is not managed here; the
    /// text is the type as it was written.
    InvalidRecordType(String),
}

/// The mathematical value of a `ProviderError`.
pub ghost enum ProviderErrorView {
    NotImplemented,
    ManualDns,
    MissingRecordId,
    Transport(DnsCall),
    Api(Seq<char>),
    InvalidResponse,
    Rejected(Seq<char>),
    InvalidRecordType(Seq<char>),
}

impl ProviderErrorView {
    /// The failure as a sentence.
    pub open spec fn message(self) -> Seq<char> {
        match self {
            ProviderErrorView::NotImplemented => "Route53 provider not yet implemented"@,
            ProviderErrorView::ManualDns => "Manual DNS provider does not support API operations"@,
            ProviderErrorView::MissingRecordId => "Cannot update record without ID"@,
            ProviderErrorView::Transport(call) => call.transport_message(),
            ProviderErrorView::Api(body) => "Cloudflare API error: "@ + body,
            ProviderErrorView::InvalidResponse => "Failed to parse Cloudflare response"@,
            ProviderErrorView::Rejected(errors) => "Cloudflare API errors: "@ + errors,
            ProviderErrorView::InvalidRecordType(written) =>
                "Invalid DNS record type from Cloudflare: Invalid DNS record type: "@ + written,
        }
    }
}

impl View for ProviderError {
    type V = ProviderErrorView;

    open spec fn view(&self) -> ProviderErrorView {
        match self {
            ProviderError::NotImplemented => ProviderErrorView::NotImplemented,
            ProviderError::ManualDns => ProviderErrorView::ManualDns,
            ProviderError::MissingRecordId => ProviderErrorView::MissingRecordId,
            ProviderError::Transport(call) => ProviderErrorView::Transport(*call),
            ProviderError::Api(body) => ProviderErrorView::Api(body@),
            ProviderError::InvalidResponse => ProviderErrorView::InvalidResponse,
            ProviderError::Rejected(errors) => ProviderErrorView::Rejected(errors@),
            ProviderError::InvalidRecordType(written) => ProviderErrorView::InvalidRecordType(
                written@,
            ),
        }
    }
}

impl DeepView for ProviderError {
    type V = ProviderErrorView;

    open spec fn deep_view(&self) -> ProviderErrorView {
        self@
    }
}

impl ProviderError {
    /// The failure as a sentence.
    pub fn to_string(&self) -> (text: String)
        ensures
            text@ == self@.message(),
    {
        match self {
            ProviderError::NotImplemented => String::from_str(
                "Route53 provider not yet implemented",
            ),
            ProviderError::ManualDns => String::from_str(
                "Manual DNS provider does not support API operations",
            ),
            ProviderError::MissingRecordId => String::from_str("Cannot update record without ID"),
            ProviderError::Transport(call) => match call {
                DnsCall::ListRecords => String::from_str(
                    "Failed to fetch DNS records from Cloudflare",
                ),
                DnsCall::CreateRecord => String::from_str(
                    "Failed to create DNS record in Cloudflare",
                ),
                DnsCall::UpdateRecord => String::from_str(
                    "Failed to update DNS record in Cloudflare",
                ),
                DnsCall::DeleteRecord => String::from_str(
                    "Failed to delete DNS record from Cloudflare",
                ),
            },
            ProviderError::Api(body) => join2("Cloudflare API error: ", body.as_str()),
            ProviderError::InvalidResponse => String::from_str(
                "Failed to parse Cloudflare response",
            ),
            ProviderError::Rejected(errors) => join2("Cloudflare API errors: ", errors.as_str()),
            ProviderError::InvalidRecordType(written) => join2(
                "Invalid DNS record type from Cloudflare: Invalid DNS record type: ",
                written.as_str(),
            ),
        }
    }
}

/// The calls that a DNS provider takes. Each lays down the request to send,
/// or refuses; sending is left to the caller.
pub trait DnsProvider {
    /// Lists all records of a domain.
    fn list_records(&self, domain: &str) -> (r: Result<HttpRequest, ProviderError>);

    /// Creates a record.
    fn create_record(&self, domain: &str, record: &DnsRecord) -> (r: Result<
        HttpRequest,
        ProviderError,
    >);

    /// Updates an existing record.
    fn update_record(&self, domain: &str, record: &DnsRecord) -> (r: Result<
        HttpRequest,
        ProviderError,
    >);

    /// Deletes a record.
    fn delete_record(&self, domain: &str, record_id: &str) -> (r: Result<
        HttpRequest,
        ProviderError,
    >);
}

/// The provider that a configuration stands for. Only Cloudflare takes
/// calls: Route53 is not implemented, and a domain whose DNS is managed by
/// hand takes none.
pub open spec fn provider_for(config: DnsProviderView) -> Result<
    CloudflareProviderView,
    ProviderErrorView,
> {
    match config {
        DnsProviderView::Cloudflare { api_token, zone_id } => Ok(
            CloudflareProviderView { api_token, zone_id },
        ),
        DnsProviderView::Route53 { .. } => Err(ProviderErrorView::NotImplemented),
        DnsProviderView::Manual => Err(ProviderErrorView::ManualDns),
    }
}

/// Makes the provider that a configuration stands for.
pub fn create_provider(config: &DnsProviderConfig) -> (r: Result<CloudflareProvider, ProviderError>)
    ensures
        match provider_for(config@) {
            Ok(provider) => r is Ok && r->Ok_0@ == provider,
            Err(error) => r is Err && r->Err_0@ == error,
        },
{
    match config {
        DnsProviderConfig::Cloudflare { api_token, zone_id } => Ok(
            CloudflareProvider::new(api_token.as_str(), zone_id.as_str()),
        ),
        DnsProviderConfig::Route53 { .. } => Err(ProviderError::NotImplemented),
        DnsProviderConfig::Manual => Err(ProviderError::ManualDns),
    }
}

/// A call to a DNS provider, with what it is about.
#[derive(Debug)]
pub enum DnsOperation {
    ListRecords,
    CreateRecord(DnsRecord),
    UpdateRecord(DnsRecord),
    DeleteRecord(String),
}

/// The mathematical value of a `DnsOperation`.
pub ghost enum DnsOperationView {
    ListRecords,
    CreateRecord(DnsRecordView),
    UpdateRecord(DnsRecordView),
    DeleteRecord(Seq<char>),
}

impl View for DnsOperation {
    type V = DnsOperationView;

    open spec fn view(&self) -> DnsOperationView {
        match self {
            DnsOperation::ListRecords => DnsOperationView::ListRecords,
            DnsOperation::CreateRecord(record) => DnsOperationView::CreateRecord(record@),
            DnsOperation::UpdateRecord(record) => DnsOperationView::UpdateRecord(record@),
            DnsOperation::DeleteRecord(id) => DnsOperationView::DeleteRecord(id@),
        }
    }
}

impl DnsOperation {
    /// Which of the four calls this is.
    pub fn call(&self) -> (call: DnsCall)
        ensures
            call == match self@ {
                DnsOperationView::ListRecords => DnsCall::ListRecords,
                DnsOperationView::CreateRecord(_) => DnsCall::CreateRecord,
                DnsOperationView::UpdateRecord(_) => DnsCall::UpdateRecord,
                DnsOperationView::DeleteRecord(_) => DnsCall::DeleteRecord,
            },
    {
        match self {
            DnsOperation::ListRecords => DnsCall::ListRecords,
            DnsOperation::CreateRecord(_) => DnsCall::CreateRecord,
            DnsOperation::UpdateRecord(_) => DnsCall::UpdateRecord,
            DnsOperation::DeleteRecord(_) => DnsCall::DeleteRecord,
        }
    }
}

/// What is sent for a call under a configuration. Under Route53 every call
/// fails as not implemented and under manual management every call is
/// refused, in both cases without a request; under Cloudflare the call is
/// laid down by the zone.
pub open spec fn planned_request(config: DnsProviderView, operation: DnsOperationView) -> Result<
    HttpRequestView,
    ProviderErrorView,
> {
    match provider_for(config) {
        Err(error) => Err(error),
        Ok(provider) => match operation {
            DnsOperationView::ListRecords => Ok(provider.list_request()),
            DnsOperationView::CreateRecord(record) => Ok(provider.create_request(record)),
            DnsOperationView::UpdateRecord(record) => provider.update_request(record),
            DnsOperationView::DeleteRecord(id) => Ok(provider.delete_request(id)),
        },
    }
}

/// Lays down the request for a call under a configuration, or refuses.
pub fn request_for(config: &DnsProviderConfig, domain: &str, operation: &DnsOperation) -> (r: Result<
    HttpRequest,
    ProviderError,
>)
    ensures
        match planned_request(config@, operation@) {
            Ok(request) => r is Ok && r->Ok_0@ == request,
            Err(error) => r is Err && r->Err_0@ == error,
        },
{
    match create_provider(config) {
        Err(error) => Err(error),
        Ok(provider) => match operation {
            DnsOperation::ListRecords => provider.list_records(domain),
            DnsOperation::CreateRecord(record) => provider.create_record(domain, record),
            DnsOperation::UpdateRecord(record) => provider.update_record(domain, record),
            DnsOperation::DeleteRecord(id) => provider.delete_record(domain, id.as_str()),
        },
    }
}

/// Calls under manual management and under Route53 never lead to a request.
pub proof fn lemma_unmanaged_providers_refuse(config: DnsProviderView, operation: DnsOperationView)
    ensures
        config is Manual ==> planned_request(config, operation) == Err::<
            HttpRequestView,
            ProviderErrorView,
        >(ProviderErrorView::ManualDns),
        config is Route53 ==> planned_request(config, operation) == Err::<
            HttpRequestView,
            ProviderErrorView,
        >(ProviderErrorView::NotImplemented),
{
}

} // verus!
