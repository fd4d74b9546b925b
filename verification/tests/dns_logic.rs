use cf_ddns::dns::{
    check_status_code, confirm_write, find_dns_record_id, find_zone_id, resolve_record,
    resolve_zone, CreateOrUpdateDnsRecordRequest, CreateOrUpdateDnsRecordResponse, DdnsError,
    DnsRecord, DnsType, ListDnsRecordsResponse, ListZonesResponse, Zone,
};
use cf_ddns::ip::{required_ip_family, IpFamily};

fn zone(id: &str, name: &str) -> Zone {
    Zone {
        id: id.to_string(),
        name: name.to_string(),
    }
}

fn record(id: &str, name: &str, content: &str) -> DnsRecord {
    DnsRecord {
        id: id.to_string(),
        name: name.to_string(),
        content: content.to_string(),
    }
}

#[test]
fn dns_type_from_str_accepts_the_two_address_types() {
    assert_eq!(DnsType::from_str("A"), Ok(DnsType::A));
    assert_eq!(DnsType::from_str("AAAA"), Ok(DnsType::AAAA));
}

#[test]
fn dns_type_from_str_rejects_unknown_tags() {
    assert_eq!(DnsType::from_str("TXT"), Err(DdnsError::UnsupportedDnsType));
    assert_eq!(DnsType::from_str("a"), Err(DdnsError::UnsupportedDnsType));
    assert_eq!(DnsType::from_str(""), Err(DdnsError::UnsupportedDnsType));
}

#[test]
fn dns_type_tag_round_trips() {
    assert_eq!(DnsType::A.tag(), "A");
    assert_eq!(DnsType::AAAA.tag(), "AAAA");
    assert_eq!(DnsType::from_str(&DnsType::A.tag()), Ok(DnsType::A));
    assert_eq!(DnsType::from_str(&DnsType::AAAA.tag()), Ok(DnsType::AAAA));
}

#[test]
fn a_records_use_the_ipv4_path_only() {
    assert_eq!(required_ip_family(&DnsType::A), IpFamily::V4);
}

#[test]
fn aaaa_records_use_the_ipv6_path_only() {
    assert_eq!(required_ip_family(&DnsType::AAAA), IpFamily::V6);
}

#[test]
fn canonical_status_passes() {
    assert_eq!(check_status_code(200), Ok(()));
}

#[test]
fn non_canonical_status_carries_the_observed_status() {
    assert_eq!(check_status_code(500), Err(DdnsError::BadStatus { status: 500 }));
    assert_eq!(check_status_code(404), Err(DdnsError::BadStatus { status: 404 }));
    assert_eq!(check_status_code(201), Err(DdnsError::BadStatus { status: 201 }));
}

#[test]
fn absent_ttl_and_proxied_default_to_1_and_false() {
    let body = CreateOrUpdateDnsRecordRequest::new(
        DnsType::A,
        "host.example.com".to_string(),
        "192.0.2.1".to_string(),
        None,
        None,
    );
    assert_eq!(body.ttl, 1);
    assert!(!body.proxied);
}

#[test]
fn present_ttl_and_proxied_pass_through_unchanged() {
    let body = CreateOrUpdateDnsRecordRequest::new(
        DnsType::AAAA,
        "host.example.com".to_string(),
        "2001:db8::1".to_string(),
        Some(3600),
        Some(true),
    );
    assert_eq!(body.dns_type, DnsType::AAAA);
    assert_eq!(body.name, "host.example.com");
    assert_eq!(body.content, "2001:db8::1");
    assert_eq!(body.ttl, 3600);
    assert!(body.proxied);
}

#[test]
fn find_zone_id_picks_the_exact_match() {
    let zones = vec![
        zone("z0", "other.net"),
        zone("z1", "example.com"),
        zone("z2", "example.com.evil"),
    ];
    let domain = "example.com".to_string();
    assert_eq!(find_zone_id(&zones, &domain), Some("z1".to_string()));
}

#[test]
fn find_zone_id_picks_the_first_of_equal_names() {
    let zones = vec![zone("z1", "example.com"), zone("z2", "example.com")];
    let domain = "example.com".to_string();
    assert_eq!(find_zone_id(&zones, &domain), Some("z1".to_string()));
}

#[test]
fn find_zone_id_is_case_sensitive_and_total() {
    let zones = vec![zone("z1", "Example.com")];
    let domain = "example.com".to_string();
    assert_eq!(find_zone_id(&zones, &domain), None);
    assert_eq!(find_zone_id(&Vec::new(), &domain), None);
}

#[test]
fn find_dns_record_id_rechecks_the_exact_name() {
    let records = vec![
        record("r0", "other.example.com", "192.0.2.8"),
        record("r1", "host.example.com", "192.0.2.9"),
    ];
    let name = "host.example.com".to_string();
    assert_eq!(find_dns_record_id(&records, &name), Some("r1".to_string()));
    assert_eq!(
        find_dns_record_id(&records, &"missing.example.com".to_string()),
        None
    );
}

#[test]
fn resolve_zone_returns_the_matching_zone_id() {
    let resp = ListZonesResponse {
        success: true,
        errors: vec![],
        messages: vec![],
        result: vec![zone("z9", "example.org"), zone("z1", "example.com")],
    };
    assert_eq!(resolve_zone(&"example.com".to_string(), resp), Ok("z1".to_string()));
}

#[test]
fn resolve_zone_fails_when_the_domain_is_missing() {
    let resp = ListZonesResponse {
        success: true,
        errors: vec![],
        messages: vec![],
        result: vec![zone("z9", "example.org")],
    };
    assert_eq!(
        resolve_zone(&"example.com".to_string(), resp),
        Err(DdnsError::DomainNotFound)
    );
}

#[test]
fn resolve_zone_surfaces_provider_errors_verbatim() {
    let resp = ListZonesResponse {
        success: false,
        errors: vec!["code 9103".to_string(), "unknown key".to_string()],
        messages: vec![],
        result: vec![zone("z1", "example.com")],
    };
    assert_eq!(
        resolve_zone(&"example.com".to_string(), resp),
        Err(DdnsError::ProviderRejected {
            errors: vec!["code 9103".to_string(), "unknown key".to_string()],
        })
    );
}

#[test]
fn resolve_record_finds_the_record_to_update() {
    let resp = ListDnsRecordsResponse {
        success: true,
        errors: vec![],
        messages: vec![],
        result: vec![record("r1", "host.example.com", "192.0.2.9")],
    };
    assert_eq!(
        resolve_record(&"host.example.com".to_string(), resp),
        Ok(Some("r1".to_string()))
    );
}

#[test]
fn resolve_record_reports_no_match_as_none() {
    let resp = ListDnsRecordsResponse {
        success: true,
        errors: vec![],
        messages: vec![],
        result: vec![],
    };
    assert_eq!(resolve_record(&"host.example.com".to_string(), resp), Ok(None));
}

#[test]
fn resolve_record_surfaces_provider_errors_verbatim() {
    let resp = ListDnsRecordsResponse {
        success: false,
        errors: vec!["bad zone".to_string()],
        messages: vec![],
        result: vec![],
    };
    assert_eq!(
        resolve_record(&"host.example.com".to_string(), resp),
        Err(DdnsError::ProviderRejected {
            errors: vec!["bad zone".to_string()],
        })
    );
}

#[test]
fn confirm_write_accepts_a_returned_record() {
    let resp = CreateOrUpdateDnsRecordResponse {
        success: true,
        errors: vec![],
        messages: vec![],
        result: Some(record("r1", "host.example.com", "192.0.2.9")),
    };
    assert_eq!(confirm_write(resp), Ok(()));
}

#[test]
fn confirm_write_requires_the_record_payload() {
    let resp = CreateOrUpdateDnsRecordResponse {
        success: true,
        errors: vec![],
        messages: vec![],
        result: None,
    };
    assert_eq!(confirm_write(resp), Err(DdnsError::NoRecordReturned));
}

#[test]
fn confirm_write_surfaces_provider_errors_verbatim() {
    let resp = CreateOrUpdateDnsRecordResponse {
        success: false,
        errors: vec!["quota".to_string()],
        messages: vec![],
        result: None,
    };
    assert_eq!(
        confirm_write(resp),
        Err(DdnsError::ProviderRejected {
            errors: vec!["quota".to_string()],
        })
    );
}
