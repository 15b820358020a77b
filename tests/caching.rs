use xns_sdk_rs::models::RecordMap;
use xns_sdk_rs::parser::FetchPlan;
use xns_sdk_rs::{DomainCache, DomainInfo, MetadataParser, NamingService};

fn record(domain: &str) -> DomainInfo {
    DomainInfo {
        domain: domain.to_string(),
        owner: "rOwner".to_string(),
        owner_verified: true,
        nft_id: "N".to_string(),
        service: NamingService::XRPDomains,
        addresses: RecordMap::new(),
        text_records: RecordMap::new(),
        expires_at: Some(7),
        metadata: None,
    }
}

#[test]
fn cache_returns_inserted_record_by_exact_key() {
    let mut cache = DomainCache::new();
    assert!(cache.get("a.xrp").is_none());
    cache.insert("a.xrp".to_string(), record("a.xrp"));
    let hit = cache.get("a.xrp").unwrap();
    assert_eq!(hit.owner, "rOwner");
    assert_eq!(hit.expires_at, Some(7));
    assert!(cache.get("A.xrp").is_none());
    cache.clear();
    assert!(cache.get("a.xrp").is_none());
}

#[test]
fn embedded_json_uris_are_documents() {
    let parser = MetadataParser::new();
    let uri = hex::encode("{\"name\":\"ckelley.xrp\"}");
    assert!(matches!(parser.parse_uri(&uri), Ok(FetchPlan::Document(d)) if d == "{\"name\":\"ckelley.xrp\"}"));
}

#[test]
fn custom_gateways_are_used_in_order() {
    let parser = MetadataParser::with_gateways(vec!["https://a/".to_string(), "https://b/".to_string()]);
    assert_eq!(parser.gateway_urls("cid"), vec!["https://a/cid".to_string(), "https://b/cid".to_string()]);
}

#[test]
fn record_map_insert_and_get() {
    let mut m = RecordMap::new();
    m.insert("k".to_string(), "1".to_string());
    m.insert("j".to_string(), "2".to_string());
    m.insert("k".to_string(), "3".to_string());
    assert_eq!(m.len(), 2);
    assert_eq!(m.get("k"), Some("3".to_string()));
    assert_eq!(m.get("j"), Some("2".to_string()));
    assert_eq!(m.get("x"), None);
    assert_eq!(m.entries()[0].0, "k");
}

#[test]
fn cache_with_limits_holds_records() {
    let mut cache = DomainCache::with_limits(5, 60);
    cache.insert("b.xrp".to_string(), record("b.xrp"));
    assert_eq!(cache.get("b.xrp").unwrap().domain, "b.xrp");
}
