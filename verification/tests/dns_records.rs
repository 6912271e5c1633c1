use archon::models::dns::{DnsRecord, DnsRecordType};

#[test]
fn record_type_names_round_trip() {
    let all = [
        (DnsRecordType::A, "A"),
        (DnsRecordType::AAAA, "AAAA"),
        (DnsRecordType::CNAME, "CNAME"),
        (DnsRecordType::MX, "MX"),
        (DnsRecordType::TXT, "TXT"),
        (DnsRecordType::SRV, "SRV"),
    ];
    for (t, name) in all {
        assert_eq!(t.to_string(), name);
        assert_eq!(DnsRecordType::from_str(name), Ok(t));
        assert_eq!(DnsRecordType::from_str(&name.to_lowercase()), Ok(t));
    }
}

#[test]
fn unknown_record_type_is_rejected_with_the_text_as_written() {
    assert_eq!(
        DnsRecordType::from_str("bogus"),
        Err("Invalid DNS record type: bogus".to_string())
    );
    assert_eq!(DnsRecordType::from_str(""), Err("Invalid DNS record type: ".to_string()));
}

#[test]
fn new_record_has_no_id_and_is_not_proxied() {
    let r = DnsRecord::new(DnsRecordType::A, "www".to_string(), "10.0.0.1".to_string(), 300);
    assert_eq!(r.id, None);
    assert_eq!(r.record_type, DnsRecordType::A);
    assert_eq!(r.name, "www");
    assert_eq!(r.value, "10.0.0.1");
    assert_eq!(r.ttl, 300);
    assert!(!r.proxied);
    let p = r.clone().with_proxy(true);
    assert!(p.proxied);
    assert_eq!(p.name, r.name);
}
