use xns_sdk_rs::memo_storage::{AddressStorageTransaction, MemoStorage};
use xns_sdk_rs::models::{AttributeValue, ExtraFields, MetadataAttribute};
use xns_sdk_rs::parser::{classify_uri, decode_uri, FetchPlan, FetchStep, GatewayFallback, UriSource};
use xns_sdk_rs::{MetadataParser, NftMetadata, XnsError};
use std::collections::HashMap;

fn doc(name: &str) -> NftMetadata {
    NftMetadata {
        name: name.to_string(),
        description: String::new(),
        image: String::new(),
        attributes: vec![],
        extra: ExtraFields::new(),
    }
}

#[test]
fn test_extract_domain_from_name() {
    let metadata = doc("ckelley.xrp");
    assert_eq!(
        MetadataParser::extract_domain_name(&metadata),
        Some("ckelley.xrp".to_string())
    );
}

#[test]
fn test_hex_decode() {
    let hex_uri = hex::encode("https://example.com/metadata.json");
    let uri = decode_uri(&hex_uri).unwrap();
    assert_eq!(uri, "https://example.com/metadata.json");
}

#[test]
fn test_decode_memo() {
    let data = r#"{"BTC":"bc1q...","ETH":"0x..."}"#;
    let hex = hex::encode(data.as_bytes());
    let decoded = MemoStorage::decode_memo(&hex).unwrap();
    assert_eq!(decoded, data);
}

#[test]
fn test_build_transaction() {
    let mut addresses = HashMap::new();
    addresses.insert("BTC".to_string(), "bc1qxy2kgdygjrsqtzq2n0yrf2493p83kkfjhx0wlh".to_string());
    addresses.insert("ETH".to_string(), "0x742d35Cc6634C0532925a3b844Bc9e7595f0bEb".to_string());

    let tx = AddressStorageTransaction::new("reRDmP8LxyYunhcfmQMnSjinKXV6duss6".to_string(), addresses);
    assert!(tx.is_ok());

    let tx = tx.unwrap();
    assert_eq!(tx.transaction_type, "Payment");
    assert_eq!(tx.amount, "1");
    assert_eq!(tx.account, tx.destination);
}

#[test]
fn memo_fields_are_hex() {
    let mut addresses = HashMap::new();
    addresses.insert("BTC".to_string(), "bc1q".to_string());
    let tx = AddressStorageTransaction::new("rA".to_string(), addresses).unwrap();
    assert_eq!(tx.memos.len(), 1);
    assert_eq!(tx.memos[0].memo.memo_type, "584e535f414444524553534553");
    assert_eq!(tx.memos[0].memo.memo_data, hex::encode(r#"{"BTC":"bc1q"}"#));
}

#[test]
fn decode_rejects_bad_hex_and_bad_utf8() {
    assert!(matches!(decode_uri("abc"), Err(XnsError::ParseError(_))));
    assert!(matches!(decode_uri("zz"), Err(XnsError::ParseError(_))));
    assert!(matches!(decode_uri("ff"), Err(XnsError::ParseError(_))));
    assert_eq!(decode_uri("4142").unwrap(), "AB");
    assert_eq!(decode_uri("").unwrap(), "");
}

#[test]
fn classify_by_scheme() {
    assert!(matches!(classify_uri("ipfs://Qm1".to_string()), Ok(UriSource::Ipfs(c)) if c == "Qm1"));
    assert!(matches!(classify_uri("http://a/b".to_string()), Ok(UriSource::Http(u)) if u == "http://a/b"));
    assert!(matches!(classify_uri("https://a".to_string()), Ok(UriSource::Http(_))));
    assert!(matches!(classify_uri("{\"name\":\"x\"}".to_string()), Ok(UriSource::Embedded(_))));
    assert!(matches!(classify_uri("[1]".to_string()), Ok(UriSource::Embedded(_))));
    assert!(matches!(classify_uri("ftp://a".to_string()), Err(XnsError::MetadataError(_))));
}

#[test]
fn parse_uri_plans_gateways_in_order() {
    let parser = MetadataParser::new();
    let plan = parser.parse_uri(&hex::encode("ipfs://QmXyz")).unwrap();
    match plan {
        FetchPlan::Gateways(urls) => assert_eq!(
            urls,
            vec![
                "https://ipfs.io/ipfs/QmXyz".to_string(),
                "https://gateway.pinata.cloud/ipfs/QmXyz".to_string(),
                "https://cloudflare-ipfs.com/ipfs/QmXyz".to_string(),
            ]
        ),
        other => panic!("unexpected plan {:?}", other),
    }
    assert!(matches!(parser.parse_uri(&hex::encode("{\"name\":\"a.xrp\"}")), Ok(FetchPlan::Document(d)) if d == "{\"name\":\"a.xrp\"}"));
    assert!(matches!(parser.parse_uri(&hex::encode("https://h/m.json")), Ok(FetchPlan::Url(u)) if u == "https://h/m.json"));
    assert!(matches!(parser.parse_uri(&hex::encode("data:xyz")), Err(XnsError::MetadataError(_))));
    assert!(matches!(parser.parse_uri("0"), Err(XnsError::ParseError(_))));
}

#[test]
fn gateway_fallback_third_gateway_wins() {
    let urls = vec!["g1/c".to_string(), "g2/c".to_string(), "g3/c".to_string()];
    let (mut f, step) = GatewayFallback::new(urls);
    assert!(matches!(step, FetchStep::Fetch(u) if u == "g1/c"));
    let step = f.record(Err(XnsError::NetworkError("HTTP 429".to_string())));
    assert!(matches!(step, FetchStep::Fetch(u) if u == "g2/c"));
    let step = f.record(Err(XnsError::NetworkError("timeout".to_string())));
    assert!(matches!(step, FetchStep::Fetch(u) if u == "g3/c"));
    let step = f.record(Ok(doc("found.xrp")));
    assert!(matches!(step, FetchStep::Done(Ok(m)) if m.name == "found.xrp"));
}

#[test]
fn gateway_fallback_all_fail() {
    let urls = vec!["g1/c".to_string(), "g2/c".to_string(), "g3/c".to_string()];
    let (mut f, _) = GatewayFallback::new(urls);
    f.record(Err(XnsError::NetworkError("a".to_string())));
    f.record(Err(XnsError::NetworkError("b".to_string())));
    let step = f.record(Err(XnsError::NetworkError("HTTP 503".to_string())));
    match step {
        FetchStep::Done(Err(XnsError::MetadataError(msg))) => {
            assert_eq!(msg, "All gateways failed: Network error: HTTP 503")
        }
        other => panic!("unexpected step {:?}", other),
    }
    let (_, step) = GatewayFallback::new(vec![]);
    assert!(matches!(step, FetchStep::Done(Err(XnsError::MetadataError(m))) if m == "All IPFS gateways failed"));
}

fn attr(key: &str, value: AttributeValue) -> MetadataAttribute {
    MetadataAttribute { trait_type: key.to_string(), value }
}

#[test]
fn name_field_wins_over_attribute() {
    let mut m = doc("a.xrp");
    m.attributes.push(attr("domain", AttributeValue::Text("b.xrp".to_string())));
    assert_eq!(MetadataParser::extract_domain_name(&m), Some("a.xrp".to_string()));
}

#[test]
fn attribute_then_extra_rules() {
    let mut m = doc("Some Name");
    m.attributes.push(attr("Domain", AttributeValue::Text("x.xrp".to_string())));
    m.attributes.push(attr("domain", AttributeValue::Other("7".to_string())));
    m.attributes.push(attr("name", AttributeValue::Text("n.xrp".to_string())));
    m.extra.insert("domain".to_string(), AttributeValue::Text("e.xrp".to_string()));
    assert_eq!(MetadataParser::extract_domain_name(&m), Some("n.xrp".to_string()));

    let mut m = doc("Some Name");
    m.attributes.push(attr("domain", AttributeValue::Text("not-a-domain".to_string())));
    m.extra.insert("other".to_string(), AttributeValue::Text("o.xrp".to_string()));
    m.extra.insert("domain".to_string(), AttributeValue::Text("e.xrp".to_string()));
    assert_eq!(MetadataParser::extract_domain_name(&m), Some("e.xrp".to_string()));

    let mut m = doc("plain");
    m.extra.insert("domain".to_string(), AttributeValue::Text("e.com".to_string()));
    assert_eq!(MetadataParser::extract_domain_name(&m), None);
    assert_eq!(MetadataParser::extract_domain_name(&doc("")), None);
}

#[test]
fn error_messages() {
    assert_eq!(XnsError::DomainNotFound("a.xrp".to_string()).message(), "Domain not found: a.xrp");
    assert_eq!(XnsError::RpcError("HTTP 500: x".to_string()).message(), "XRPL RPC error: HTTP 500: x");
}

#[test]
fn extra_fields_keep_one_value_per_key() {
    let mut extra = ExtraFields::new();
    extra.insert("domain".to_string(), AttributeValue::Text("a.xrp".to_string()));
    extra.insert("other".to_string(), AttributeValue::Other("1".to_string()));
    extra.insert("domain".to_string(), AttributeValue::Text("b.xrp".to_string()));
    assert_eq!(extra.entries().len(), 2);
    assert_eq!(extra.entries()[0].0, "domain");
    assert!(matches!(extra.value_of("domain"), Some(AttributeValue::Text(v)) if v == "b.xrp"));
    assert!(extra.value_of("missing").is_none());
    let copy = extra.clone();
    assert_eq!(copy.entries().len(), 2);
}
