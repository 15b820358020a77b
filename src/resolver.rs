use vstd::prelude::*;
use vstd::string::*;
use crate::error::XnsError;
use crate::models::{
    inserted, DomainInfo, NamingService, NftInfo, NftMetadata, RecordMap, XrplNetwork, XrplNft,
};
use crate::parser::{spec_domain_name, MetadataParser};
use crate::text::{ends_with, eq_ignoring_ascii_case, equals_ignoring_ascii_case, has_suffix};

verus! {

/// A naming service together with the account that mints its tokens.
#[derive(Debug, Clone)]
pub struct ServiceEntry {
    pub service: NamingService,
    pub issuer: String,
}

pub open spec fn plan_part(s: NamingService, network: XrplNetwork) -> Seq<
    (NamingService, Seq<char>),
> {
    match s.spec_issuer(network) {
        Some(i) => seq![(s, i)],
        None => Seq::empty(),
    }
}

/// The services to ask on a network, in priority order, each with its
/// issuer; a service without an issuer there is left out.
pub open spec fn spec_service_plan(network: XrplNetwork) -> Seq<(NamingService, Seq<char>)> {
    plan_part(NamingService::XNS, network) + plan_part(NamingService::XRPDomains, network)
}

pub open spec fn entries_view(v: Seq<ServiceEntry>) -> Seq<(NamingService, Seq<char>)> {
    v.map_values(|e: ServiceEntry| (e.service, e.issuer@))
}

pub fn service_plan(network: XrplNetwork) -> (r: Vec<ServiceEntry>)
    ensures
        entries_view(r@) == spec_service_plan(network),
{
    let mut v: Vec<ServiceEntry> = Vec::new();
    if let Some(i) = NamingService::XNS.issuer_address(network) {
        v.push(ServiceEntry { service: NamingService::XNS, issuer: String::from_str(i) });
    }
    let ghost first = v@;
    assert(entries_view(first) =~= plan_part(NamingService::XNS, network));
    if let Some(i) = NamingService::XRPDomains.issuer_address(network) {
        v.push(ServiceEntry { service: NamingService::XRPDomains, issuer: String::from_str(i) });
    }
    assert(entries_view(v@) =~= spec_service_plan(network));
    v
}

/// Placeholder owner of a record whose ownership could not be confirmed.
pub open spec fn unknown_owner() -> Seq<char> {
    "rUnknownOwner"@
}

/// Whether a query has the form of a domain of the system: it ends with the
/// `.xrp` suffix.
pub fn is_valid_domain(domain: &str) -> (r: bool)
    ensures
        r == ends_with(domain@, ".xrp"@),
{
    has_suffix(domain, ".xrp")
}

/// Profile data a naming service publishes for a domain, as plain values.
#[derive(Debug, Clone)]
pub struct ProfileData {
    /// (chain symbol, address) pairs, as listed; either part may be absent.
    pub addresses: Vec<(Option<String>, Option<String>)>,
    pub email: Option<String>,
    pub twitter: Option<String>,
    pub github: Option<String>,
    pub website: Option<String>,
}

/// The lower-case form of a text.
pub uninterp spec fn lower_of(s: Seq<char>) -> Seq<char>;

/// Relies on str::to_lowercase: the result depends on the characters alone.
#[verifier::external_body]
fn lowercase(s: &str) -> (r: String)
    ensures
        r@ == lower_of(s@),
{
    s.to_lowercase()
}

/// Address bindings after adding each listed pair that has both a symbol and
/// an address, the symbol lower-cased.
pub open spec fn with_addresses(
    s: Seq<(Seq<char>, Seq<char>)>,
    pairs: Seq<(Option<String>, Option<String>)>,
) -> Seq<(Seq<char>, Seq<char>)>
    decreases pairs.len(),
{
    if pairs.len() == 0 {
        s
    } else {
        let before = with_addresses(s, pairs.drop_last());
        let p = pairs.last();
        if p.0 is Some && p.1 is Some {
            inserted(before, lower_of(p.0->0@), p.1->0@)
        } else {
            before
        }
    }
}

pub open spec fn with_record(
    s: Seq<(Seq<char>, Seq<char>)>,
    key: Seq<char>,
    value: Option<String>,
) -> Seq<(Seq<char>, Seq<char>)> {
    match value {
        Some(v) => inserted(s, key, v@),
        None => s,
    }
}

/// Text records after adding the profile's email, twitter, github and
/// website entries, in that order, where present.
pub open spec fn with_text_records(s: Seq<(Seq<char>, Seq<char>)>, p: ProfileData) -> Seq<
    (Seq<char>, Seq<char>),
> {
    with_record(
        with_record(
            with_record(with_record(s, "email"@, p.email), "twitter"@, p.twitter),
            "github"@,
            p.github,
        ),
        "website"@,
        p.website,
    )
}

fn put_record(m: &mut RecordMap, key: &str, value: &Option<String>)
    requires
        old(m).wf(),
    ensures
        final(m).wf(),
        final(m).spec_entries() == with_record(old(m).spec_entries(), key@, *value),
{
    match value {
        Some(v) => m.insert(String::from_str(key), v.clone()),
        None => {},
    }
}

/// Adds a profile's address bindings and text records to a record.
pub fn apply_profile(info: &mut DomainInfo, profile: &ProfileData)
    requires
        old(info).addresses.wf(),
        old(info).text_records.wf(),
    ensures
        final(info).addresses.wf(),
        final(info).text_records.wf(),
        final(info).addresses.spec_entries() == with_addresses(
            old(info).addresses.spec_entries(),
            profile.addresses@,
        ),
        final(info).text_records.spec_entries() == with_text_records(
            old(info).text_records.spec_entries(),
            *profile,
        ),
        final(info).domain == old(info).domain,
        final(info).owner == old(info).owner,
        final(info).owner_verified == old(info).owner_verified,
        final(info).nft_id == old(info).nft_id,
        final(info).service == old(info).service,
        final(info).expires_at == old(info).expires_at,
        final(info).metadata == old(info).metadata,
{
    let n = profile.addresses.len();
    let mut i: usize = 0;
    while i < n
        invariant
            n == profile.addresses@.len(),
            i <= n,
            info.addresses.wf(),
            info.addresses.spec_entries() == with_addresses(
                old(info).addresses.spec_entries(),
                profile.addresses@.take(i as int),
            ),
            info.text_records == old(info).text_records,
            info.domain == old(info).domain,
            info.owner == old(info).owner,
            info.owner_verified == old(info).owner_verified,
            info.nft_id == old(info).nft_id,
            info.service == old(info).service,
            info.expires_at == old(info).expires_at,
            info.metadata == old(info).metadata,
        decreases n - i,
    {
        assert(profile.addresses@.take(i + 1).drop_last() =~= profile.addresses@.take(i as int));
        match &profile.addresses[i] {
            (Some(sym), Some(addr)) => {
                let key = lowercase(sym.as_str());
                info.addresses.insert(key, addr.clone());
            },
            _ => {},
        }
        i = i + 1;
    }
    assert(profile.addresses@.take(n as int) =~= profile.addresses@);
    put_record(&mut info.text_records, "email", &profile.email);
    put_record(&mut info.text_records, "twitter", &profile.twitter);
    put_record(&mut info.text_records, "github", &profile.github);
    put_record(&mut info.text_records, "website", &profile.website);
}

/// Where a resolution stands.
#[derive(Debug, Clone, Copy, PartialEq, Eq, Structural)]
pub enum Phase {
    ListingByIssuer,
    ListingAccount,
    Scanning,
    ConfirmingOwner,
    Enriching,
    Finished,
}

/// The next exchange a resolution needs from the network, or its outcome.
#[derive(Debug)]
pub enum Action {
    /// List the issuer's tokens through the indexer.
    ListByIssuer(String),
    /// List the issuer account's tokens on the ledger.
    ListAccount(String),
    /// Fetch and read the metadata behind a hex-encoded URI, after a short
    /// pause when `pause` is set.
    FetchMetadata { uri: String, pause: bool },
    /// Ask the indexer who holds a token now.
    LookupOwner(String),
    /// Ask the naming service for the domain's profile.
    FetchProfile(String),
    Finish(Result<DomainInfo, XnsError>),
}

/// Tokens between two throttling pauses of a scan.
pub const PAUSE_EVERY: usize = 10;

/// The first index at or after `i` whose token carries a URI, or the length
/// when none does.
pub open spec fn next_with_uri(tokens: Seq<XrplNft>, i: int) -> int
    decreases tokens.len() - i,
{
    if i >= tokens.len() {
        tokens.len() as int
    } else if tokens[i].uri is Some {
        i
    } else {
        next_with_uri(tokens, i + 1)
    }
}

proof fn lemma_next_with_uri(tokens: Seq<XrplNft>, i: int)
    requires
        0 <= i <= tokens.len(),
    ensures
        i <= next_with_uri(tokens, i) <= tokens.len(),
        next_with_uri(tokens, i) < tokens.len() ==> tokens[next_with_uri(tokens, i)].uri is Some,
    decreases tokens.len() - i,
{
    if i < tokens.len() && tokens[i].uri is None {
        lemma_next_with_uri(tokens, i + 1);
    }
}

/// One resolution of a domain, driven by the caller: each step takes what the
/// network answered and says what to do next.
pub struct ResolveSession {
    domain: String,
    /// The query, lower-cased; a document's domain matches it ignoring ASCII
    /// case.
    target: String,
    services: Vec<ServiceEntry>,
    service_idx: usize,
    phase: Phase,
    tokens: Vec<XrplNft>,
    token_idx: usize,
    record: Option<DomainInfo>,
}

impl ResolveSession {
    pub closed spec fn spec_domain(&self) -> Seq<char> {
        self.domain@
    }

    pub closed spec fn spec_target(&self) -> Seq<char> {
        self.target@
    }

    pub closed spec fn spec_services(&self) -> Seq<(NamingService, Seq<char>)> {
        entries_view(self.services@)
    }

    pub closed spec fn spec_service_idx(&self) -> int {
        self.service_idx as int
    }

    pub closed spec fn spec_phase(&self) -> Phase {
        self.phase
    }

    pub closed spec fn spec_tokens(&self) -> Seq<XrplNft> {
        self.tokens@
    }

    pub closed spec fn spec_token_idx(&self) -> int {
        self.token_idx as int
    }

    /// The record being assembled once a token matched.
    pub closed spec fn spec_record(&self) -> Option<DomainInfo> {
        self.record
    }

    pub open spec fn wf(&self) -> bool {
        &&& 0 <= self.spec_service_idx() <= self.spec_services().len()
        &&& self.spec_phase() != Phase::Finished ==> self.spec_service_idx()
            < self.spec_services().len()
        &&& self.spec_phase() == Phase::Scanning ==> 0 <= self.spec_token_idx()
            < self.spec_tokens().len() && self.spec_tokens()[self.spec_token_idx()].uri is Some
        &&& (self.spec_phase() == Phase::ConfirmingOwner || self.spec_phase() == Phase::Enriching)
            ==> self.spec_record() is Some && self.spec_record()->0.addresses.wf()
            && self.spec_record()->0.text_records.wf()
    }

    /// The same query and services as `o`.
    pub open spec fn same_query(&self, o: &ResolveSession) -> bool {
        self.spec_domain() == o.spec_domain() && self.spec_target() == o.spec_target()
            && self.spec_services() == o.spec_services()
    }

    /// The session has moved on to the service at `k`: asking for its tokens,
    /// or, past the last one, finished with the domain not found.
    pub open spec fn at_service(&self, r: Action, k: int) -> bool {
        &&& self.spec_service_idx() == k
        &&& k < self.spec_services().len() ==> self.spec_phase() == Phase::ListingByIssuer && (
        r matches Action::ListByIssuer(i) && i@ == self.spec_services()[k].1)
        &&& k >= self.spec_services().len() ==> self.spec_phase() == Phase::Finished && (
        r matches Action::Finish(Err(XnsError::DomainNotFound(d))) && d@ == self.spec_domain())
    }

    /// The session scans its tokens from index `i`: it fetches the first one
    /// at or after `i` with a URI, or, if none is left, moves to the next
    /// service.
    pub open spec fn scanning_from(&self, r: Action, i: int, service: int) -> bool {
        let j = next_with_uri(self.spec_tokens(), i);
        &&& j < self.spec_tokens().len() ==> self.spec_phase() == Phase::Scanning
            && self.spec_token_idx() == j && self.spec_service_idx() == service && (
        r matches Action::FetchMetadata { uri, pause } && uri@ == self.spec_tokens()[j].uri->0@
            && pause == (j > 0 && j % PAUSE_EVERY as int == 0))
        &&& j >= self.spec_tokens().len() ==> self.at_service(r, service + 1)
    }

    pub fn phase(&self) -> (r: Phase)
        ensures
            r == self.spec_phase(),
    {
        self.phase
    }

    fn begin_service(&mut self, k: usize) -> (r: Action)
        requires
            k <= old(self).services@.len(),
        ensures
            final(self).same_query(old(self)),
            final(self).spec_tokens() == old(self).spec_tokens(),
            final(self).spec_record() == old(self).spec_record(),
            final(self).at_service(r, k as int),
            final(self).wf(),
    {
        self.service_idx = k;
        if k < self.services.len() {
            self.phase = Phase::ListingByIssuer;
            Action::ListByIssuer(self.services[k].issuer.clone())
        } else {
            self.phase = Phase::Finished;
            Action::Finish(Err(XnsError::DomainNotFound(self.domain.clone())))
        }
    }

    /// Gives up the current service and moves to the next one.
    fn next_service(&mut self) -> (r: Action)
        requires
            old(self).service_idx < old(self).services@.len(),
        ensures
            final(self).same_query(old(self)),
            final(self).spec_tokens() == old(self).spec_tokens(),
            final(self).spec_record() == old(self).spec_record(),
            final(self).at_service(r, old(self).spec_service_idx() + 1),
            final(self).wf(),
    {
        let count = self.services.len();
        proof {
            assert(self.service_idx < count);
        }
        self.begin_service(self.service_idx + 1)
    }

    fn scan_from(&mut self, i: usize) -> (r: Action)
        requires
            i <= old(self).tokens@.len(),
            old(self).service_idx < old(self).services@.len(),
        ensures
            final(self).same_query(old(self)),
            final(self).spec_tokens() == old(self).spec_tokens(),
            final(self).spec_record() == old(self).spec_record(),
            final(self).scanning_from(r, i as int, old(self).spec_service_idx()),
            final(self).wf(),
    {
        let n = self.tokens.len();
        let mut j: usize = i;
        proof {
            lemma_next_with_uri(self.tokens@, i as int);
        }
        while j < n
            invariant
                n == self.tokens@.len(),
                i <= j <= n,
                self.domain == old(self).domain,
                self.target == old(self).target,
                self.services == old(self).services,
                self.tokens == old(self).tokens,
                self.record == old(self).record,
                self.service_idx == old(self).service_idx,
                self.service_idx < self.services@.len(),
                next_with_uri(self.tokens@, i as int) == next_with_uri(self.tokens@, j as int),
            decreases n - j,
        {
            match &self.tokens[j].uri {
                Some(u) => {
                    let uri = u.clone();
                    self.token_idx = j;
                    self.phase = Phase::Scanning;
                    return Action::FetchMetadata { uri, pause: j > 0 && j % PAUSE_EVERY == 0 };
                },
                None => {},
            }
            j = j + 1;
        }
        self.next_service()
    }

    /// Opens a resolution of `domain` over `services`, in their order. A
    /// domain without the `.xrp` suffix is refused at once; a cached record
    /// is the answer at once; otherwise the first service is asked.
    pub fn start(domain: String, services: Vec<ServiceEntry>, cached: Option<DomainInfo>) -> (r: (
        ResolveSession,
        Action,
    ))
        ensures
            r.0.wf(),
            r.0.spec_domain() == domain@,
            r.0.spec_target() == lower_of(domain@),
            r.0.spec_services() == entries_view(services@),
            !ends_with(domain@, ".xrp"@) ==> (r.1 matches Action::Finish(
                Err(XnsError::InvalidDomain(_)),
            )),
            ends_with(domain@, ".xrp"@) && cached is Some ==> r.1 == Action::Finish(
                Ok(cached->0),
            ),
            ends_with(domain@, ".xrp"@) && cached is None ==> r.0.at_service(r.1, 0),
    {
        let valid = has_suffix(domain.as_str(), ".xrp");
        let target = lowercase(domain.as_str());
        let mut s = ResolveSession {
            domain,
            target,
            services,
            service_idx: 0,
            phase: Phase::Finished,
            tokens: Vec::new(),
            token_idx: 0,
            record: None,
        };
        if !valid {
            let msg = s.domain.clone();
            return (s, Action::Finish(Err(XnsError::InvalidDomain(msg))));
        }
        match cached {
            Some(c) => (s, Action::Finish(Ok(c))),
            None => {
                let a = s.begin_service(0);
                (s, a)
            },
        }
    }

    /// Takes a token listing for the current service. A failed indexer
    /// listing falls back to the ledger listing of the issuer account; a
    /// failed ledger listing gives the service up.
    pub fn on_tokens(&mut self, listing: Result<Vec<XrplNft>, XnsError>) -> (r: Action)
        requires
            old(self).wf(),
            old(self).spec_phase() == Phase::ListingByIssuer || old(self).spec_phase()
                == Phase::ListingAccount,
        ensures
            final(self).wf(),
            final(self).same_query(old(self)),
            listing is Err && old(self).spec_phase() == Phase::ListingByIssuer ==> {
                &&& final(self).spec_phase() == Phase::ListingAccount
                &&& final(self).spec_service_idx() == old(self).spec_service_idx()
                &&& r matches Action::ListAccount(a) && a@ == old(self).spec_services()[old(self).spec_service_idx()].1
            },
            listing is Err && old(self).spec_phase() == Phase::ListingAccount ==> final(self).at_service(r, old(self).spec_service_idx() + 1),
            listing is Ok ==> final(self).spec_tokens() == listing->Ok_0@ && final(self).scanning_from(r, 0, old(self).spec_service_idx()),
    {
        match listing {
            Err(_) => {
                if self.phase == Phase::ListingByIssuer {
                    self.phase = Phase::ListingAccount;
                    Action::ListAccount(self.services[self.service_idx].issuer.clone())
                } else {
                    self.next_service()
                }
            },
            Ok(tokens) => {
                self.tokens = tokens;
                self.scan_from(0)
            },
        }
    }

    /// Takes the metadata of the token being scanned. A document naming the
    /// queried domain (ignoring ASCII case) stops the scan and asks who owns
    /// the token; anything else moves the scan on.
    pub fn on_metadata(&mut self, fetched: Result<NftMetadata, XnsError>) -> (r: Action)
        requires
            old(self).wf(),
            old(self).spec_phase() == Phase::Scanning,
        ensures
            final(self).wf(),
            final(self).same_query(old(self)),
            final(self).spec_tokens() == old(self).spec_tokens(),
            ({
                let t = old(self).spec_tokens()[old(self).spec_token_idx()];
                let svc = old(self).spec_services()[old(self).spec_service_idx()].0;
                let found = fetched is Ok && spec_domain_name(fetched->Ok_0) is Some
                    && eq_ignoring_ascii_case(
                    spec_domain_name(fetched->Ok_0)->0,
                    old(self).spec_target(),
                );
                &&& found ==> {
                    &&& final(self).spec_phase() == Phase::ConfirmingOwner
                    &&& final(self).spec_service_idx() == old(self).spec_service_idx()
                    &&& r matches Action::LookupOwner(id) && id@ == t.nft_token_id@
                    &&& final(self).spec_record() is Some
                    &&& final(self).spec_record()->0.domain@ == spec_domain_name(fetched->Ok_0)->0
                    &&& final(self).spec_record()->0.nft_id@ == t.nft_token_id@
                    &&& final(self).spec_record()->0.service == svc
                    &&& final(self).spec_record()->0.metadata == Some(fetched->Ok_0)
                    &&& final(self).spec_record()->0.expires_at is None
                    &&& final(self).spec_record()->0.addresses.spec_entries().len() == 0
                    &&& final(self).spec_record()->0.text_records.spec_entries().len() == 0
                }
                &&& !found ==> final(self).scanning_from(
                    r,
                    old(self).spec_token_idx() + 1,
                    old(self).spec_service_idx(),
                )
            }),
    {
        match fetched {
            Ok(m) => {
                match MetadataParser::extract_domain_name(&m) {
                    Some(d) => {
                        if equals_ignoring_ascii_case(d.as_str(), self.target.as_str()) {
                            let id = self.tokens[self.token_idx].nft_token_id.clone();
                            let rec = DomainInfo {
                                domain: d,
                                owner: String::from_str("rUnknownOwner"),
                                owner_verified: false,
                                nft_id: self.tokens[self.token_idx].nft_token_id.clone(),
                                service: self.services[self.service_idx].service,
                                addresses: RecordMap::new(),
                                text_records: RecordMap::new(),
                                expires_at: None,
                                metadata: Some(m),
                            };
                            self.record = Some(rec);
                            self.phase = Phase::ConfirmingOwner;
                            return Action::LookupOwner(id);
                        }
                    },
                    None => {},
                }
            },
            Err(_) => {},
        }
        let count = self.tokens.len();
        proof {
            assert(self.token_idx < count);
        }
        self.scan_from(self.token_idx + 1)
    }
    /// With the record `rec` assembled, the session either asks for the
    /// service's profile, keeping `rec`, or finishes with it.
    pub open spec fn delivering(&self, r: Action, rec: DomainInfo) -> bool {
        &&& rec.service.spec_has_profile_api() ==> self.spec_phase() == Phase::Enriching
            && self.spec_record() == Some(rec) && (r matches Action::FetchProfile(d) && d@
            == rec.domain@)
        &&& !rec.service.spec_has_profile_api() ==> self.spec_phase() == Phase::Finished && r
            == Action::Finish(Ok(rec))
    }

    /// Takes the indexer's answer on who holds the matched token. A burned
    /// token gives the service up; an owner makes the record verified; a
    /// failed lookup leaves the placeholder owner, marked unverified.
    pub fn on_owner(&mut self, lookup: Result<NftInfo, XnsError>) -> (r: Action)
        requires
            old(self).wf(),
            old(self).spec_phase() == Phase::ConfirmingOwner,
        ensures
            final(self).wf(),
            final(self).same_query(old(self)),
            ({
                let before = old(self).spec_record()->0;
                &&& lookup is Ok && lookup->Ok_0.is_burned ==> final(self).at_service(
                    r,
                    old(self).spec_service_idx() + 1,
                )
                &&& lookup is Ok && !lookup->Ok_0.is_burned && lookup->Ok_0.owner@.len() > 0
                    ==> final(self).delivering(
                    r,
                    DomainInfo { owner: lookup->Ok_0.owner, owner_verified: true, ..before },
                )
                &&& (lookup is Err || (!lookup->Ok_0.is_burned && lookup->Ok_0.owner@.len() == 0))
                    ==> exists|o: String|
                    o@ == unknown_owner() && o@.len() > 0 && final(self).delivering(
                        r,
                        DomainInfo { owner: o, owner_verified: false, ..before },
                    )
            }),
    {
        let mut rec = self.record.take().unwrap();
        proof {
            reveal_strlit("rUnknownOwner");
        }
        match lookup {
            Ok(info) => {
                if info.is_burned {
                    return self.next_service();
                }
                if info.owner.as_str().is_empty() {
                    rec.owner = String::from_str("rUnknownOwner");
                    rec.owner_verified = false;
                } else {
                    rec.owner = info.owner;
                    rec.owner_verified = true;
                }
            },
            Err(_) => {
                rec.owner = String::from_str("rUnknownOwner");
                rec.owner_verified = false;
            },
        }
        if rec.service.has_profile_api() {
            let d = rec.domain.clone();
            self.record = Some(rec);
            self.phase = Phase::Enriching;
            Action::FetchProfile(d)
        } else {
            self.phase = Phase::Finished;
            Action::Finish(Ok(rec))
        }
    }

    /// Takes the service's profile for the domain, if one could be had, and
    /// finishes with the record. A missing profile never fails the
    /// resolution.
    pub fn on_profile(&mut self, profile: Option<ProfileData>) -> (r: Action)
        requires
            old(self).wf(),
            old(self).spec_phase() == Phase::Enriching,
        ensures
            final(self).spec_phase() == Phase::Finished,
            final(self).wf(),
            final(self).same_query(old(self)),
            ({
                let before = old(self).spec_record()->0;
                &&& profile is None ==> r == Action::Finish(Ok(before))
                &&& profile is Some ==> (r matches Action::Finish(Ok(rec)) && rec
                    == (DomainInfo {
                    addresses: rec.addresses,
                    text_records: rec.text_records,
                    ..before
                }) && rec.addresses.spec_entries() == with_addresses(
                    before.addresses.spec_entries(),
                    profile->0.addresses@,
                ) && rec.text_records.spec_entries() == with_text_records(
                    before.text_records.spec_entries(),
                    profile->0,
                ))
            }),
    {
        self.phase = Phase::Finished;
        let mut rec = self.record.take().unwrap();
        match profile {
            Some(p) => {
                apply_profile(&mut rec, &p);
            },
            None => {},
        }
        Action::Finish(Ok(rec))
    }
}

/// The hex URIs of the tokens that carry one, in token order.
pub open spec fn spec_token_uris(tokens: Seq<XrplNft>) -> Seq<Seq<char>>
    decreases tokens.len(),
{
    if tokens.len() == 0 {
        Seq::empty()
    } else {
        let before = spec_token_uris(tokens.drop_last());
        match tokens.last().uri {
            Some(u) => before.push(u@),
            None => before,
        }
    }
}

/// The domains that fetched documents name, in order; failed fetches and
/// documents that name no domain are left out.
pub open spec fn spec_found_domains(fetched: Seq<Result<NftMetadata, XnsError>>) -> Seq<Seq<char>>
    decreases fetched.len(),
{
    if fetched.len() == 0 {
        Seq::empty()
    } else {
        let before = spec_found_domains(fetched.drop_last());
        match fetched.last() {
            Ok(m) => match spec_domain_name(m) {
                Some(d) => before.push(d),
                None => before,
            },
            Err(_) => before,
        }
    }
}

/// The metadata URIs a reverse lookup reads for an account's tokens.
pub fn reverse_lookup_uris(tokens: &Vec<XrplNft>) -> (r: Vec<String>)
    ensures
        r@.map_values(|u: String| u@) == spec_token_uris(tokens@),
{
    let mut out: Vec<String> = Vec::new();
    let n = tokens.len();
    let mut i: usize = 0;
    while i < n
        invariant
            n == tokens@.len(),
            i <= n,
            out@.map_values(|u: String| u@) == spec_token_uris(tokens@.take(i as int)),
        decreases n - i,
    {
        assert(tokens@.take(i + 1).drop_last() =~= tokens@.take(i as int));
        match &tokens[i].uri {
            Some(u) => {
                out.push(u.clone());
                assert(out@.map_values(|u: String| u@) =~= spec_token_uris(
                    tokens@.take(i as int),
                ).push(u@));
            },
            None => {},
        }
        i = i + 1;
    }
    assert(tokens@.take(n as int) =~= tokens@);
    out
}

/// The domains that the fetched metadata of an account's tokens name, in
/// token order; a token whose metadata could not be had or names no domain
/// is skipped.
pub fn collect_domains(fetched: &Vec<Result<NftMetadata, XnsError>>) -> (r: Vec<String>)
    ensures
        r@.map_values(|d: String| d@) == spec_found_domains(fetched@),
{
    let mut out: Vec<String> = Vec::new();
    let n = fetched.len();
    let mut i: usize = 0;
    while i < n
        invariant
            n == fetched@.len(),
            i <= n,
            out@.map_values(|d: String| d@) == spec_found_domains(fetched@.take(i as int)),
        decreases n - i,
    {
        assert(fetched@.take(i + 1).drop_last() =~= fetched@.take(i as int));
        match &fetched[i] {
            Ok(m) => match MetadataParser::extract_domain_name(m) {
                Some(d) => {
                    let ghost dv = d@;
                    out.push(d);
                    assert(out@.map_values(|d: String| d@) =~= spec_found_domains(
                        fetched@.take(i as int),
                    ).push(dv));
                },
                None => {},
            },
            Err(_) => {},
        }
        i = i + 1;
    }
    assert(fetched@.take(n as int) =~= fetched@);
    out
}

} // verus!
