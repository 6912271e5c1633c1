//! The Cloudflare DNS API: what is sent for each call and how its answers
//! are read.

use crate::api::client::{
    bearer, bearer_text, Body, BodyView, CloudflareDnsRecord, CloudflareDnsRecordView, HttpMethod,
    HttpRequest, HttpRequestView,
};
use crate::dns::provider::{DnsProvider, ProviderError, ProviderErrorView};
use crate::models::dns::{DnsRecord, DnsRecordType, DnsRecordView};
use crate::text::{copy_optional_text, decimal, decimal_text, join3, uppercase_text};
use vstd::prelude::*;
use vstd::string::*;

verus! {

/// An error that the Cloudflare API reports in an answer.
#[derive(Debug, PartialEq, Eq)]
pub struct CloudflareError {
    pub code: u32,
    pub message: String,
}

/// The mathematical value of a `CloudflareError`.
pub ghost struct CloudflareErrorView {
    pub code: u32,
    pub message: Seq<char>,
}

impl View for CloudflareError {
    type V = CloudflareErrorView;

    open spec fn view(&self) -> CloudflareErrorView {
        CloudflareErrorView { code: self.code, message: self.message@ }
    }
}

impl DeepView for CloudflareError {
    type V = CloudflareErrorView;

    open spec fn deep_view(&self) -> CloudflareErrorView {
        self@
    }
}

impl CloudflareErrorView {
    /// The error as it is listed: its code, a colon, its message.
    pub open spec fn text(self) -> Seq<char> {
        decimal_text(self.code as nat) + ": "@ + self.message
    }
}

/// The listed errors, separated by a comma and a space.
pub open spec fn errors_text(errors: Seq<CloudflareErrorView>) -> Seq<char>
    decreases errors.len(),
{
    if errors.len() == 0 {
        Seq::empty()
    } else if errors.len() == 1 {
        errors[0].text()
    } else {
        errors_text(errors.drop_last()) + ", "@ + errors.last().text()
    }
}

/// The record in the shape of the Cloudflare API.
pub open spec fn cloudflare_record(record: DnsRecordView) -> CloudflareDnsRecordView {
    CloudflareDnsRecordView {
        id: record.id,
        record_type: record.record_type.name(),
        name: record.name,
        content: record.value,
        ttl: record.ttl,
        proxied: record.proxied,
    }
}

/// What reading a record of the Cloudflare API gives: the record, if its
/// type is one that is managed here, in any letter case; else the failure
/// that names the type as written.
pub open spec fn read_record(record: CloudflareDnsRecordView) -> Result<
    DnsRecordView,
    ProviderErrorView,
> {
    match DnsRecordType::named(uppercase_text(record.record_type)) {
        Some(record_type) => Ok(
            DnsRecordView {
                id: record.id,
                record_type,
                name: record.name,
                value: record.content,
                ttl: record.ttl,
                proxied: record.proxied,
            },
        ),
        None => Err(ProviderErrorView::InvalidRecordType(record.record_type)),
    }
}

/// The records of a list that can be read, in order; the others are left
/// out.
pub open spec fn readable_records(records: Seq<CloudflareDnsRecordView>) -> Seq<DnsRecordView>
    decreases records.len(),
{
    if records.len() == 0 {
        Seq::empty()
    } else {
        match read_record(records.last()) {
            Ok(record) => readable_records(records.drop_last()).push(record),
            Err(_) => readable_records(records.drop_last()),
        }
    }
}

/// How an answer of the Cloudflare API that was received and parsed is
/// judged before its result is read: an answer that does not report success
/// is a failure that lists the errors it reports.
pub open spec fn rejection(success: bool, errors: Seq<CloudflareErrorView>) -> Option<
    ProviderErrorView,
> {
    if success {
        None
    } else {
        Some(ProviderErrorView::Rejected(errors_text(errors)))
    }
}

/// A Cloudflare zone and the token for it.
#[derive(Debug, PartialEq, Eq)]
pub struct CloudflareProvider {
    api_token: String,
    zone_id: String,
}

/// The mathematical value of a `CloudflareProvider`.
pub ghost struct CloudflareProviderView {
    pub api_token: Seq<char>,
    pub zone_id: Seq<char>,
}

impl CloudflareProviderView {
    /// The address of the zone's records.
    pub open spec fn records_url(self) -> Seq<char> {
        "https://api.cloudflare.com/client/v4/zones/"@ + self.zone_id + "/dns_records"@
    }

    /// The address of one record of the zone.
    pub open spec fn record_url(self, record_id: Seq<char>) -> Seq<char> {
        self.records_url() + "/"@ + record_id
    }

    /// The request that lists the zone's records.
    pub open spec fn list_request(self) -> HttpRequestView {
        HttpRequestView {
            method: HttpMethod::Get,
            url: self.records_url(),
            authorization: bearer_text(self.api_token),
            body: BodyView::Empty,
        }
    }

    /// The request that creates a record in the zone.
    pub open spec fn create_request(self, record: DnsRecordView) -> HttpRequestView {
        HttpRequestView {
            method: HttpMethod::Post,
            url: self.records_url(),
            authorization: bearer_text(self.api_token),
            body: BodyView::DnsRecord(cloudflare_record(record)),
        }
    }

    /// The request that updates a record of the zone, which must have the
    /// provider's identifier.
    pub open spec fn update_request(self, record: DnsRecordView) -> Result<
        HttpRequestView,
        ProviderErrorView,
    > {
        match record.id {
            Some(id) => Ok(
                HttpRequestView {
                    method: HttpMethod::Put,
                    url: self.record_url(id),
                    authorization: bearer_text(self.api_token),
                    body: BodyView::DnsRecord(cloudflare_record(record)),
                },
            ),
            None => Err(ProviderErrorView::MissingRecordId),
        }
    }

    /// The request that deletes a record of the zone.
    pub open spec fn delete_request(self, record_id: Seq<char>) -> HttpRequestView {
        HttpRequestView {
            method: HttpMethod::Delete,
            url: self.record_url(record_id),
            authorization: bearer_text(self.api_token),
            body: BodyView::Empty,
        }
    }
}

impl View for CloudflareProvider {
    type V = CloudflareProviderView;

    closed spec fn view(&self) -> CloudflareProviderView {
        CloudflareProviderView { api_token: self.api_token@, zone_id: self.zone_id@ }
    }
}

impl CloudflareProvider {
    pub fn new(api_token: &str, zone_id: &str) -> (provider: Self)
        ensures
            provider@ == (CloudflareProviderView { api_token: api_token@, zone_id: zone_id@ }),
    {
        CloudflareProvider {
            api_token: String::from_str(api_token),
            zone_id: String::from_str(zone_id),
        }
    }

    /// The address of the zone's records.
    pub fn records_url(&self) -> (url: String)
        ensures
            url@ == self@.records_url(),
    {
        join3(
            "https://api.cloudflare.com/client/v4/zones/",
            self.zone_id.as_str(),
            "/dns_records",
        )
    }

    /// The address of one record of the zone.
    pub fn record_url(&self, record_id: &str) -> (url: String)
        ensures
            url@ == self@.record_url(record_id@),
    {
        self.records_url().concat("/").concat(record_id)
    }

    /// The record in the shape of the Cloudflare API.
    pub fn to_cloudflare_record(record: &DnsRecord) -> (cf_record: CloudflareDnsRecord)
        ensures
            cf_record@ == cloudflare_record(record@),
    {
        CloudflareDnsRecord {
            id: copy_optional_text(&record.id),
            record_type: record.record_type.to_string(),
            name: record.name.clone(),
            content: record.value.clone(),
            ttl: record.ttl,
            proxied: record.proxied,
        }
    }

    /// Reads a record of the Cloudflare API.
    pub fn from_cloudflare_record(cf_record: CloudflareDnsRecord) -> (r: Result<
        DnsRecord,
        ProviderError,
    >)
        ensures
            match read_record(cf_record@) {
                Ok(record) => r is Ok && r->Ok_0@ == record,
                Err(error) => r is Err && r->Err_0@ == error,
            },
    {
        match DnsRecordType::from_str(cf_record.record_type.as_str()) {
            Ok(record_type) => Ok(
                DnsRecord {
                    id: cf_record.id,
                    record_type,
                    name: cf_record.name,
                    value: cf_record.content,
                    ttl: cf_record.ttl,
                    proxied: cf_record.proxied,
                },
            ),
            Err(_) => Err(ProviderError::InvalidRecordType(cf_record.record_type)),
        }
    }

    /// The failure that an answer with a status outside the 2xx range stands
    /// for.
    pub fn api_error(body: Option<String>) -> (error: ProviderError)
        ensures
            error@ == ProviderErrorView::Api(
                crate::api::client::body_or_unknown(body.deep_view()),
            ),
    {
        ProviderError::Api(crate::api::client::error_body(body))
    }

    /// Lists the errors of an answer, separated by a comma and a space.
    pub fn join_errors(errors: &Vec<CloudflareError>) -> (text: String)
        ensures
            text@ == errors_text(errors.deep_view()),
    {
        let mut text = String::new();
        let mut i: usize = 0;
        let ghost all = errors.deep_view();
        while i < errors.len()
            invariant
                i <= errors.len(),
                all == errors.deep_view(),
                text@ == errors_text(all.subrange(0, i as int)),
            decreases errors.len() - i,
        {
            let code = decimal(errors[i].code as u64);
            let item = join3(code.as_str(), ": ", errors[i].message.as_str());
            let ghost before = all.subrange(0, i as int);
            let ghost after = all.subrange(0, i + 1);
            assert(after.drop_last() =~= before);
            assert(after.last() == all[i as int]);
            if i == 0 {
                assert(text@ =~= Seq::<char>::empty());
                text = item;
                assert(after.len() == 1 && after[0] == all[0]);
            } else {
                text = text.concat(", ").concat(item.as_str());
            }
            i += 1;
        }
        assert(all.subrange(0, errors.len() as int) =~= all);
        text
    }

    /// Judges an answer that was received and parsed.
    pub fn check_success(success: bool, errors: &Vec<CloudflareError>) -> (r: Result<
        (),
        ProviderError,
    >)
        ensures
            match rejection(success, errors.deep_view()) {
                None => r is Ok,
                Some(error) => r is Err && r->Err_0@ == error,
            },
    {
        if success {
            Ok(())
        } else {
            Err(ProviderError::Rejected(Self::join_errors(errors)))
        }
    }

    /// Reads the answer to a listing: the records that can be read, in
    /// order.
    pub fn records_listed(
        success: bool,
        errors: &Vec<CloudflareError>,
        result: Vec<CloudflareDnsRecord>,
    ) -> (r: Result<Vec<DnsRecord>, ProviderError>)
        ensures
            match rejection(success, errors.deep_view()) {
                None => r is Ok && r->Ok_0.deep_view() == readable_records(result.deep_view()),
                Some(error) => r is Err && r->Err_0@ == error,
            },
    {
        match Self::check_success(success, errors) {
            Err(error) => Err(error),
            Ok(_) => {
                let ghost all = result.deep_view();
                let mut records: Vec<DnsRecord> = Vec::new();
                let mut i: usize = 0;
                assert(all.subrange(0, 0) =~= Seq::empty());
                while i < result.len()
                    invariant
                        i <= result.len(),
                        all == result.deep_view(),
                        records.deep_view() == readable_records(all.subrange(0, i as int)),
                    decreases result.len() - i,
                {
                    let ghost before = all.subrange(0, i as int);
                    let ghost after = all.subrange(0, i + 1);
                    let ghost gathered = records.deep_view();
                    assert(after.drop_last() =~= before);
                    assert(after.last() == result[i as int]@);
                    match Self::from_cloudflare_record(Self::copy_record(&result[i])) {
                        Ok(record) => {
                            records.push(record);
                            assert(records.deep_view() =~= gathered.push(record@));
                        },
                        Err(_) => {},
                    }
                    i += 1;
                }
                assert(all.subrange(0, result.len() as int) =~= all);
                Ok(records)
            },
        }
    }

    fn copy_record(cf_record: &CloudflareDnsRecord) -> (copy: CloudflareDnsRecord)
        ensures
            copy@ == cf_record@,
    {
        CloudflareDnsRecord {
            id: copy_optional_text(&cf_record.id),
            record_type: cf_record.record_type.clone(),
            name: cf_record.name.clone(),
            content: cf_record.content.clone(),
            ttl: cf_record.ttl,
            proxied: cf_record.proxied,
        }
    }

    /// Reads the answer to the creation or the update of a record.
    pub fn record_returned(
        success: bool,
        errors: &Vec<CloudflareError>,
        result: CloudflareDnsRecord,
    ) -> (r: Result<DnsRecord, ProviderError>)
        ensures
            match rejection(success, errors.deep_view()) {
                None => match read_record(result@) {
                    Ok(record) => r is Ok && r->Ok_0@ == record,
                    Err(error) => r is Err && r->Err_0@ == error,
                },
                Some(error) => r is Err && r->Err_0@ == error,
            },
    {
        match Self::check_success(success, errors) {
            Err(error) => Err(error),
            Ok(_) => Self::from_cloudflare_record(result),
        }
    }
}

impl DnsProvider for CloudflareProvider {
    /// The request that lists the zone's records; the domain's name plays no
    /// part, as the zone is known.
    fn list_records(&self, domain: &str) -> (r: Result<HttpRequest, ProviderError>)
        ensures
            r is Ok,
            r->Ok_0@ == self@.list_request(),
    {
        Ok(
            HttpRequest {
                method: HttpMethod::Get,
                url: self.records_url(),
                authorization: bearer(self.api_token.as_str()),
                body: Body::Empty,
            },
        )
    }

    /// The request that creates a record in the zone.
    fn create_record(&self, domain: &str, record: &DnsRecord) -> (r: Result<
        HttpRequest,
        ProviderError,
    >)
        ensures
            r is Ok,
            r->Ok_0@ == self@.create_request(record@),
    {
        Ok(
            HttpRequest {
                method: HttpMethod::Post,
                url: self.records_url(),
                authorization: bearer(self.api_token.as_str()),
                body: Body::DnsRecord(Self::to_cloudflare_record(record)),
            },
        )
    }

    /// The request that updates a record of the zone. A record without the
    /// provider's identifier cannot be updated.
    fn update_record(&self, domain: &str, record: &DnsRecord) -> (r: Result<
        HttpRequest,
        ProviderError,
    >)
        ensures
            match self@.update_request(record@) {
                Ok(request) => r is Ok && r->Ok_0@ == request,
                Err(error) => r is Err && r->Err_0@ == error,
            },
    {
        match &record.id {
            Some(id) => Ok(
                HttpRequest {
                    method: HttpMethod::Put,
                    url: self.record_url(id.as_str()),
                    authorization: bearer(self.api_token.as_str()),
                    body: Body::DnsRecord(Self::to_cloudflare_record(record)),
                },
            ),
            None => Err(ProviderError::MissingRecordId),
        }
    }

    /// The request that deletes a record of the zone.
    fn delete_record(&self, domain: &str, record_id: &str) -> (r: Result<
        HttpRequest,
        ProviderError,
    >)
        ensures
            r is Ok,
            r->Ok_0@ == self@.delete_request(record_id@),
    {
        Ok(
            HttpRequest {
                method: HttpMethod::Delete,
                url: self.record_url(record_id),
                authorization: bearer(self.api_token.as_str()),
                body: Body::Empty,
            },
        )
    }
}

} // verus!
