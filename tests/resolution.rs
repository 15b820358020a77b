use xns_sdk_rs::client::{tokens_from_issuer_listing, IssuerNft, TokenPager, PAGE_LIMIT};
use xns_sdk_rs::models::{AccountNftsResult, ExtraFields, NftInfo, RecordMap, XrplNft};
use xns_sdk_rs::resolver::{
    apply_profile, collect_domains, is_valid_domain, reverse_lookup_uris, service_plan, Phase, ProfileData,
    ServiceEntry,
};
use xns_sdk_rs::{Action, DomainInfo, NamingService, NftMetadata, ResolveSession, XnsError, XrplNetwork};

fn doc(name: &str) -> NftMetadata {
    NftMetadata {
        name: name.to_string(),
        description: String::new(),
        image: String::new(),
        attributes: vec![],
        extra: ExtraFields::new(),
    }
}

fn token(id: &str, uri: Option<&str>) -> XrplNft {
    XrplNft { nft_token_id: id.to_string(), uri: uri.map(|u| u.to_string()), issuer: None }
}

fn entry(service: NamingService, issuer: &str) -> ServiceEntry {
    ServiceEntry { service, issuer: issuer.to_string() }
}

fn owner(id: &str, who: &str, burned: bool) -> NftInfo {
    NftInfo { nft_id: id.to_string(), owner: who.to_string(), is_burned: burned, uri: None, issuer: None }
}

fn record(domain: &str) -> DomainInfo {
    DomainInfo {
        domain: domain.to_string(),
        owner: "rCached".to_string(),
        owner_verified: true,
        nft_id: "N1".to_string(),
        service: NamingService::XNS,
        addresses: RecordMap::new(),
        text_records: RecordMap::new(),
        expires_at: None,
        metadata: None,
    }
}

#[test]
fn test_invalid_domain() {
    let (_, action) = ResolveSession::start("invalid.com".to_string(), service_plan(XrplNetwork::Mainnet), None);
    assert!(matches!(action, Action::Finish(Err(XnsError::InvalidDomain(_)))));
}

#[test]
fn invalid_domain_issues_no_request_even_when_cached() {
    for d in ["", "xrp", "a.xrpx", "a.XRP", "ckelley.xr"] {
        let (_, action) = ResolveSession::start(d.to_string(), service_plan(XrplNetwork::Mainnet), Some(record(d)));
        assert!(matches!(action, Action::Finish(Err(XnsError::InvalidDomain(_)))), "{}", d);
    }
}

#[test]
fn cached_record_is_returned_without_requests() {
    let (_, action) = ResolveSession::start("a.xrp".to_string(), service_plan(XrplNetwork::Mainnet), Some(record("a.xrp")));
    match action {
        Action::Finish(Ok(r)) => {
            assert_eq!(r.domain, "a.xrp");
            assert_eq!(r.owner, "rCached");
            assert_eq!(r.nft_id, "N1");
        }
        other => panic!("unexpected {:?}", other),
    }
}

#[test]
fn cache_miss_queries_the_first_issuer() {
    let (_, action) = ResolveSession::start("a.xrp".to_string(), service_plan(XrplNetwork::Mainnet), None);
    assert!(matches!(action, Action::ListByIssuer(i) if i == "rYhfynZDrde1uSvvQAYctApg6DnVE5HKm"));
}

#[test]
fn no_service_on_network_means_not_found() {
    assert!(service_plan(XrplNetwork::Testnet).is_empty());
    let (_, action) = ResolveSession::start("a.xrp".to_string(), service_plan(XrplNetwork::Devnet), None);
    assert!(matches!(action, Action::Finish(Err(XnsError::DomainNotFound(_)))));
}

#[test]
fn service_plan_order_and_issuers() {
    let plan = service_plan(XrplNetwork::Mainnet);
    assert_eq!(plan.len(), 2);
    assert_eq!(plan[0].service, NamingService::XNS);
    assert_eq!(plan[0].issuer, "rYhfynZDrde1uSvvQAYctApg6DnVE5HKm");
    assert_eq!(plan[1].service, NamingService::XRPDomains);
    assert_eq!(plan[1].issuer, "r4pM3nT7r7X1k2WMcSw5Sz8ftUu33TEfA4");
    assert_eq!(XrplNetwork::Mainnet.rpc_url(), "https://s1.ripple.com:51234");
    assert_eq!(XrplNetwork::Testnet.rpc_url(), "https://s.altnet.rippletest.net:51234");
    assert_eq!(XrplNetwork::Devnet.rpc_url(), "https://s.devnet.rippletest.net:51234");
    assert_eq!(NamingService::XNS.issuer_address(XrplNetwork::Testnet), None);
}

#[test]
fn end_to_end_xns_match() {
    let t1 = hex::encode("{\"name\":\"other.xrp\"}");
    let t2 = hex::encode("{\"name\":\"ckelley.xrp\"}");
    let (mut s, action) = ResolveSession::start(
        "ckelley.xrp".to_string(),
        vec![entry(NamingService::XNS, "I")],
        None,
    );
    assert!(matches!(action, Action::ListByIssuer(i) if i == "I"));
    let action = s.on_tokens(Ok(vec![token("T1", Some(&t1)), token("T2", Some(&t2))]));
    assert!(matches!(&action, Action::FetchMetadata { uri, pause: false } if *uri == t1));
    let action = s.on_metadata(Ok(doc("other.xrp")));
    assert!(matches!(&action, Action::FetchMetadata { uri, pause: false } if *uri == t2));
    let action = s.on_metadata(Ok(doc("ckelley.xrp")));
    assert!(matches!(&action, Action::LookupOwner(id) if id == "T2"));
    let action = s.on_owner(Ok(owner("T2", "rOwner1", false)));
    match action {
        Action::Finish(Ok(r)) => {
            assert_eq!(r.domain, "ckelley.xrp");
            assert_eq!(r.owner, "rOwner1");
            assert!(r.owner_verified);
            assert_eq!(r.nft_id, "T2");
            assert_eq!(r.service, NamingService::XNS);
            assert_eq!(r.metadata.unwrap().name, "ckelley.xrp");
        }
        other => panic!("unexpected {:?}", other),
    }
    assert_eq!(s.phase(), Phase::Finished);
}

#[test]
fn burned_token_moves_to_next_service() {
    let (mut s, _) = ResolveSession::start(
        "d.xrp".to_string(),
        vec![entry(NamingService::XNS, "I1"), entry(NamingService::XRPDomains, "I2")],
        None,
    );
    s.on_tokens(Ok(vec![token("B", Some("00"))]));
    let action = s.on_metadata(Ok(doc("D.xrp")));
    assert!(matches!(&action, Action::LookupOwner(id) if id == "B"));
    let action = s.on_owner(Ok(owner("B", "rGone", true)));
    assert!(matches!(&action, Action::ListByIssuer(i) if i == "I2"));
    s.on_tokens(Ok(vec![]));
    assert_eq!(s.phase(), Phase::Finished);
}

#[test]
fn burned_token_on_last_service_is_not_found() {
    let (mut s, _) = ResolveSession::start("d.xrp".to_string(), vec![entry(NamingService::XNS, "I1")], None);
    s.on_tokens(Ok(vec![token("B", Some("00"))]));
    s.on_metadata(Ok(doc("d.xrp")));
    let action = s.on_owner(Ok(owner("B", "rGone", true)));
    assert!(matches!(action, Action::Finish(Err(XnsError::DomainNotFound(d))) if d == "d.xrp"));
}

#[test]
fn indexer_failure_falls_back_to_ledger_listing() {
    let (mut s, _) = ResolveSession::start(
        "d.xrp".to_string(),
        vec![entry(NamingService::XNS, "I1"), entry(NamingService::XRPDomains, "I2")],
        None,
    );
    let action = s.on_tokens(Err(XnsError::RpcError("Clio HTTP 500".to_string())));
    assert!(matches!(&action, Action::ListAccount(a) if a == "I1"));
    let action = s.on_tokens(Err(XnsError::NetworkError("down".to_string())));
    assert!(matches!(&action, Action::ListByIssuer(i) if i == "I2"));
}

#[test]
fn scan_skips_failures_and_tokens_without_uri_and_pauses() {
    let mut tokens = vec![token("X", None)];
    for i in 1..12 {
        tokens.push(token(&format!("T{}", i), Some(&format!("{:02x}", i))));
    }
    let (mut s, _) = ResolveSession::start("z.xrp".to_string(), vec![entry(NamingService::XNS, "I")], None);
    let mut action = s.on_tokens(Ok(tokens));
    let mut pauses = vec![];
    let mut fetched = 0;
    loop {
        match action {
            Action::FetchMetadata { uri, pause } => {
                fetched += 1;
                if pause {
                    pauses.push(uri);
                }
                action = s.on_metadata(Err(XnsError::ParseError("bad".to_string())));
            }
            Action::Finish(Err(XnsError::DomainNotFound(_))) => break,
            other => panic!("unexpected {:?}", other),
        }
    }
    assert_eq!(fetched, 11);
    assert_eq!(pauses, vec!["0a".to_string()]);
}

#[test]
fn unconfirmed_owner_is_marked_unverified() {
    let (mut s, _) = ResolveSession::start("d.xrp".to_string(), vec![entry(NamingService::XNS, "I")], None);
    s.on_tokens(Ok(vec![token("T", Some("00"))]));
    s.on_metadata(Ok(doc("d.xrp")));
    match s.on_owner(Err(XnsError::NetworkError("x".to_string()))) {
        Action::Finish(Ok(r)) => {
            assert_eq!(r.owner, "rUnknownOwner");
            assert!(!r.owner_verified);
        }
        other => panic!("unexpected {:?}", other),
    }
}

fn profile() -> ProfileData {
    ProfileData {
        addresses: vec![
            (Some("BTC".to_string()), Some("bc1q".to_string())),
            (Some("Eth".to_string()), None),
            (None, Some("x".to_string())),
            (Some("eth".to_string()), Some("0xabc".to_string())),
        ],
        email: Some("a@b.c".to_string()),
        twitter: None,
        github: Some("gh".to_string()),
        website: Some("https://w".to_string()),
    }
}

#[test]
fn xrp_domains_record_is_enriched() {
    let (mut s, _) = ResolveSession::start("d.xrp".to_string(), vec![entry(NamingService::XRPDomains, "I")], None);
    s.on_tokens(Ok(vec![token("T", Some("00"))]));
    s.on_metadata(Ok(doc("d.xrp")));
    let action = s.on_owner(Ok(owner("T", "rO", false)));
    assert!(matches!(&action, Action::FetchProfile(d) if d == "d.xrp"));
    match s.on_profile(Some(profile())) {
        Action::Finish(Ok(r)) => {
            assert_eq!(r.owner, "rO");
            assert_eq!(r.addresses.get("btc"), Some("bc1q".to_string()));
            assert_eq!(r.addresses.get("BTC"), None);
            assert_eq!(r.addresses.get("eth"), Some("0xabc".to_string()));
            assert_eq!(r.addresses.len(), 2);
            assert_eq!(r.text_records.get("email"), Some("a@b.c".to_string()));
            assert_eq!(r.text_records.get("twitter"), None);
            assert_eq!(r.text_records.get("github"), Some("gh".to_string()));
            assert_eq!(r.text_records.get("website"), Some("https://w".to_string()));
        }
        other => panic!("unexpected {:?}", other),
    }
}

#[test]
fn missing_profile_keeps_record() {
    let (mut s, _) = ResolveSession::start("d.xrp".to_string(), vec![entry(NamingService::XRPDomains, "I")], None);
    s.on_tokens(Ok(vec![token("T", Some("00"))]));
    s.on_metadata(Ok(doc("d.xrp")));
    s.on_owner(Ok(owner("T", "rO", false)));
    match s.on_profile(None) {
        Action::Finish(Ok(r)) => {
            assert_eq!(r.owner, "rO");
            assert_eq!(r.addresses.len(), 0);
        }
        other => panic!("unexpected {:?}", other),
    }
}

#[test]
fn apply_profile_replaces_existing_keys_in_place() {
    let mut r = record("d.xrp");
    r.addresses.insert("eth".to_string(), "old".to_string());
    apply_profile(&mut r, &profile());
    assert_eq!(
        r.addresses.entries().clone(),
        vec![("eth".to_string(), "0xabc".to_string()), ("btc".to_string(), "bc1q".to_string())]
    );
}

#[test]
fn pager_concatenates_three_pages() {
    let mut p = TokenPager::new("rAcct".to_string());
    let req = p.request();
    assert_eq!(req.account, "rAcct");
    assert_eq!(req.limit, PAGE_LIMIT);
    assert_eq!(req.limit, 400);
    assert_eq!(req.ledger_index, "validated");
    assert_eq!(req.marker, None);
    let pages = vec![
        (vec![token("A", None), token("B", None)], Some("m1")),
        (vec![token("C", None)], Some("m2")),
        (vec![token("D", None)], None),
    ];
    for (nfts, marker) in pages {
        assert!(!p.is_done());
        p.on_page(AccountNftsResult { account: "rAcct".to_string(), nfts, marker: marker.map(|m| m.to_string()) });
        if let Some(m) = marker {
            assert_eq!(p.request().marker, Some(m.to_string()));
        }
    }
    assert!(p.is_done());
    let ids: Vec<String> = p.into_tokens().into_iter().map(|t| t.nft_token_id).collect();
    assert_eq!(ids, vec!["A", "B", "C", "D"]);
}

#[test]
fn issuer_listing_keeps_order() {
    let listing = vec![
        IssuerNft { nft_id: "1".to_string(), owner: "o".to_string(), uri: Some("aa".to_string()), issuer: None },
        IssuerNft { nft_id: "2".to_string(), owner: "o".to_string(), uri: None, issuer: Some("I".to_string()) },
    ];
    let t = tokens_from_issuer_listing(listing);
    assert_eq!(t.len(), 2);
    assert_eq!(t[0].nft_token_id, "1");
    assert_eq!(t[0].uri, Some("aa".to_string()));
    assert_eq!(t[1].nft_token_id, "2");
    assert_eq!(t[1].issuer, Some("I".to_string()));
}

#[test]
fn reverse_lookup_keeps_order_and_skips_unparsable() {
    let tokens = vec![token("1", Some("aa")), token("2", None), token("3", Some("bb")), token("4", Some("cc"))];
    assert_eq!(reverse_lookup_uris(&tokens), vec!["aa", "bb", "cc"]);
    let fetched = vec![
        Ok(doc("x.xrp")),
        Err(XnsError::ParseError("bad json".to_string())),
        Ok(doc("y.xrp")),
        Ok(doc("no domain")),
    ];
    assert_eq!(collect_domains(&fetched), vec!["x.xrp".to_string(), "y.xrp".to_string()]);
}

#[test]
fn empty_owner_is_treated_as_unknown() {
    let (mut s, _) = ResolveSession::start("d.xrp".to_string(), vec![entry(NamingService::XNS, "I")], None);
    s.on_tokens(Ok(vec![token("T", Some("00"))]));
    s.on_metadata(Ok(doc("d.xrp")));
    match s.on_owner(Ok(owner("T", "", false))) {
        Action::Finish(Ok(r)) => {
            assert_eq!(r.owner, "rUnknownOwner");
            assert!(!r.owner_verified);
        }
        other => panic!("unexpected {:?}", other),
    }
}

#[test]
fn query_is_lowercased_before_matching() {
    let (mut s, _) = ResolveSession::start("\u{c9}.xrp".to_string(), vec![entry(NamingService::XNS, "I")], None);
    s.on_tokens(Ok(vec![token("T", Some("00"))]));
    let action = s.on_metadata(Ok(doc("\u{e9}.xrp")));
    assert!(matches!(&action, Action::LookupOwner(id) if id == "T"));
}

#[test]
fn domain_suffix_check() {
    assert!(is_valid_domain("a.xrp"));
    assert!(is_valid_domain(".xrp"));
    assert!(!is_valid_domain("a.XRP"));
    assert!(!is_valid_domain("invalid.com"));
}
