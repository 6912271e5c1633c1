use archon::api::client::{Body, CloudflareDnsRecord, HttpMethod};
use archon::dns::cloudflare::{CloudflareError, CloudflareProvider};
use archon::dns::provider::{
    create_provider, request_for, DnsCall, DnsOperation, DnsProvider as DnsProviderTrait,
    ProviderError,
};
use archon::models::dns::{DnsRecord, DnsRecordType};
use archon::models::domain::DnsProvider;

fn dns_cloudflare() -> DnsProvider {
    DnsProvider::Cloudflare { api_token: "SECRET-REDACTED".to_string(), zone_id: "z1".to_string() }
}

fn dns_route53() -> DnsProvider {
    DnsProvider::Route53 {
        access_key: "a".to_string(),
        secret_key: "s".to_string(),
        hosted_zone_id: "h".to_string(),
    }
}

fn dns_record(id: Option<&str>) -> DnsRecord {
    let mut record =
        DnsRecord::new(DnsRecordType::CNAME, "www".to_string(), "example.com".to_string(), 120).with_proxy(true);
    record.id = id.map(|s| s.to_string());
    record
}

fn dns_cf_record(record_type: &str, name: &str) -> CloudflareDnsRecord {
    CloudflareDnsRecord {
        id: Some(format!("id-{}", name)),
        record_type: record_type.to_string(),
        name: name.to_string(),
        content: "1.2.3.4".to_string(),
        ttl: 300,
        proxied: false,
    }
}

fn dns_operations() -> Vec<DnsOperation> {
    vec![
        DnsOperation::ListRecords,
        DnsOperation::CreateRecord(dns_record(None)),
        DnsOperation::UpdateRecord(dns_record(Some("r1"))),
        DnsOperation::DeleteRecord("r1".to_string()),
    ]
}

#[test]
fn only_cloudflare_takes_calls() {
    let provider = create_provider(&dns_cloudflare()).unwrap();
    assert_eq!(provider, CloudflareProvider::new("SECRET-REDACTED", "z1"));
    assert_eq!(create_provider(&dns_route53()), Err(ProviderError::NotImplemented));
    assert_eq!(create_provider(&DnsProvider::Manual), Err(ProviderError::ManualDns));
    for operation in dns_operations() {
        assert_eq!(
            request_for(&DnsProvider::Manual, "example.com", &operation).unwrap_err(),
            ProviderError::ManualDns
        );
        assert_eq!(
            request_for(&dns_route53(), "example.com", &operation).unwrap_err(),
            ProviderError::NotImplemented
        );
        assert!(request_for(&dns_cloudflare(), "example.com", &operation).is_ok());
    }
    let calls: Vec<DnsCall> = dns_operations().iter().map(|o| o.call()).collect();
    assert_eq!(
        calls,
        vec![DnsCall::ListRecords, DnsCall::CreateRecord, DnsCall::UpdateRecord, DnsCall::DeleteRecord]
    );
}

#[test]
fn cloudflare_requests() {
    let provider = CloudflareProvider::new("SECRET-REDACTED", "z1");
    let base = "https://api.cloudflare.com/client/v4/zones/z1/dns_records";
    assert_eq!(provider.records_url(), base);
    assert_eq!(provider.record_url("r9"), format!("{}/r9", base));

    let list = provider.list_records("example.com").unwrap();
    assert_eq!((list.method, list.url.as_str()), (HttpMethod::Get, base));
    assert_eq!(list.authorization, "Bearer SECRET-REDACTED");
    assert!(matches!(list.body, Body::Empty));

    let create = provider.create_record("example.com", &dns_record(None)).unwrap();
    assert_eq!((create.method, create.url.as_str()), (HttpMethod::Post, base));
    match create.body {
        Body::DnsRecord(record) => assert_eq!(
            record,
            CloudflareDnsRecord {
                id: None,
                record_type: "CNAME".to_string(),
                name: "www".to_string(),
                content: "example.com".to_string(),
                ttl: 120,
                proxied: true,
            }
        ),
        other => panic!("unexpected body {:?}", other),
    }

    let update = provider.update_record("example.com", &dns_record(Some("r1"))).unwrap();
    assert_eq!(update.method, HttpMethod::Put);
    assert_eq!(update.url, format!("{}/r1", base));
    match update.body {
        Body::DnsRecord(record) => assert_eq!(record.id, Some("r1".to_string())),
        other => panic!("unexpected body {:?}", other),
    }
    assert_eq!(
        provider.update_record("example.com", &dns_record(None)).unwrap_err(),
        ProviderError::MissingRecordId
    );

    let delete = provider.delete_record("example.com", "r1").unwrap();
    assert_eq!(delete.method, HttpMethod::Delete);
    assert_eq!(delete.url, format!("{}/r1", base));
    assert!(matches!(delete.body, Body::Empty));
}

#[test]
fn records_convert_both_ways() {
    let record = dns_record(Some("r1"));
    let cf = CloudflareProvider::to_cloudflare_record(&record);
    assert_eq!(cf.record_type, "CNAME");
    assert_eq!(cf.content, "example.com");
    assert_eq!(CloudflareProvider::from_cloudflare_record(cf), Ok(record));
    assert_eq!(
        CloudflareProvider::from_cloudflare_record(dns_cf_record("txt", "lower")).unwrap().record_type,
        DnsRecordType::TXT
    );
    let error = CloudflareProvider::from_cloudflare_record(dns_cf_record("CAA", "x")).unwrap_err();
    assert_eq!(error, ProviderError::InvalidRecordType("CAA".to_string()));
    assert_eq!(
        error.to_string(),
        "Invalid DNS record type from Cloudflare: Invalid DNS record type: CAA"
    );
}

#[test]
fn listing_leaves_out_unreadable_records() {
    let result = vec![
        dns_cf_record("A", "one"),
        dns_cf_record("CAA", "two"),
        dns_cf_record("mx", "three"),
        dns_cf_record("", "four"),
        dns_cf_record("SRV", "five"),
    ];
    let records = CloudflareProvider::records_listed(true, &vec![], result).unwrap();
    let names: Vec<(&str, DnsRecordType)> =
        records.iter().map(|r| (r.name.as_str(), r.record_type)).collect();
    assert_eq!(
        names,
        vec![("one", DnsRecordType::A), ("three", DnsRecordType::MX), ("five", DnsRecordType::SRV)]
    );
    assert_eq!(records[0].id, Some("id-one".to_string()));
    assert_eq!(records[0].value, "1.2.3.4");
    assert_eq!(CloudflareProvider::records_listed(true, &vec![], vec![]), Ok(vec![]));
}

#[test]
fn rejected_answers_list_their_errors() {
    let errors = vec![
        CloudflareError { code: 1003, message: "Invalid zone".to_string() },
        CloudflareError { code: 7, message: "No route".to_string() },
        CloudflareError { code: 0, message: "".to_string() },
    ];
    assert_eq!(CloudflareProvider::join_errors(&errors), "1003: Invalid zone, 7: No route, 0: ");
    let first = vec![CloudflareError { code: 1003, message: "Invalid zone".to_string() }];
    assert_eq!(CloudflareProvider::join_errors(&first), "1003: Invalid zone");
    assert_eq!(CloudflareProvider::join_errors(&vec![]), "");
    let rejected = ProviderError::Rejected("1003: Invalid zone, 7: No route, 0: ".to_string());
    assert_eq!(CloudflareProvider::check_success(false, &errors), Err(rejected));
    assert_eq!(CloudflareProvider::check_success(true, &errors), Ok(()));
    let one = vec![CloudflareError { code: 9, message: "nope".to_string() }];
    let error = CloudflareProvider::records_listed(false, &one, vec![dns_cf_record("A", "x")]).unwrap_err();
    assert_eq!(error.to_string(), "Cloudflare API errors: 9: nope");
    assert_eq!(
        CloudflareProvider::record_returned(false, &vec![], dns_cf_record("A", "x")).unwrap_err().to_string(),
        "Cloudflare API errors: "
    );
    assert_eq!(
        CloudflareProvider::record_returned(true, &one, dns_cf_record("aaaa", "x")).unwrap().record_type,
        DnsRecordType::AAAA
    );
    assert_eq!(
        CloudflareProvider::record_returned(true, &vec![], dns_cf_record("NS", "x")),
        Err(ProviderError::InvalidRecordType("NS".to_string()))
    );
}

#[test]
fn provider_error_messages() {
    let cases = vec![
        (ProviderError::NotImplemented, "Route53 provider not yet implemented"),
        (ProviderError::ManualDns, "Manual DNS provider does not support API operations"),
        (ProviderError::MissingRecordId, "Cannot update record without ID"),
        (ProviderError::Transport(DnsCall::ListRecords), "Failed to fetch DNS records from Cloudflare"),
        (ProviderError::Transport(DnsCall::CreateRecord), "Failed to create DNS record in Cloudflare"),
        (ProviderError::Transport(DnsCall::UpdateRecord), "Failed to update DNS record in Cloudflare"),
        (ProviderError::Transport(DnsCall::DeleteRecord), "Failed to delete DNS record from Cloudflare"),
        (ProviderError::Api("denied".to_string()), "Cloudflare API error: denied"),
        (ProviderError::InvalidResponse, "Failed to parse Cloudflare response"),
        (ProviderError::Rejected("1: a".to_string()), "Cloudflare API errors: 1: a"),
    ];
    for (error, message) in cases {
        assert_eq!(error.to_string(), message);
    }
    assert_eq!(CloudflareProvider::api_error(None), ProviderError::Api("Unknown error".to_string()));
    assert_eq!(
        CloudflareProvider::api_error(Some("forbidden".to_string())),
        ProviderError::Api("forbidden".to_string())
    );
}
