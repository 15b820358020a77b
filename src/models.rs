use vstd::prelude::*;
use vstd::string::*;
use crate::text::same_text;

verus! {

/// The ledger environment a resolver talks to.
#[derive(Debug, Clone, Copy, PartialEq, Eq, Structural)]
pub enum XrplNetwork {
    Mainnet,
    Testnet,
    Devnet,
}

impl XrplNetwork {
    /// The default RPC endpoint of the environment.
    pub open spec fn spec_rpc_url(self) -> Seq<char> {
        match self {
            XrplNetwork::Mainnet => "https://s1.ripple.com:51234"@,
            XrplNetwork::Testnet => "https://s.altnet.rippletest.net:51234"@,
            XrplNetwork::Devnet => "https://s.devnet.rippletest.net:51234"@,
        }
    }

    pub fn rpc_url(&self) -> (r: &'static str)
        ensures
            r@ == self.spec_rpc_url(),
    {
        match self {
            XrplNetwork::Mainnet => "https://s1.ripple.com:51234",
            XrplNetwork::Testnet => "https://s.altnet.rippletest.net:51234",
            XrplNetwork::Devnet => "https://s.devnet.rippletest.net:51234",
        }
    }
}

/// A provider that mints tokens standing for domain names.
#[derive(Debug, Clone, Copy, PartialEq, Eq, Structural)]
pub enum NamingService {
    XNS,
    XRPDomains,
}

impl NamingService {
    /// The account that mints the service's tokens on a network, if the
    /// service exists there.
    pub open spec fn spec_issuer(self, network: XrplNetwork) -> Option<Seq<char>> {
        match (self, network) {
            (NamingService::XNS, XrplNetwork::Mainnet) => Some("rYhfynZDrde1uSvvQAYctApg6DnVE5HKm"@),
            (NamingService::XRPDomains, XrplNetwork::Mainnet) => Some(
                "r4pM3nT7r7X1k2WMcSw5Sz8ftUu33TEfA4"@,
            ),
            _ => None,
        }
    }

    pub fn issuer_address(&self, network: XrplNetwork) -> (r: Option<&'static str>)
        ensures
            r is Some == self.spec_issuer(network) is Some,
            r is Some ==> r->0@ == self.spec_issuer(network)->0,
    {
        match (self, network) {
            (NamingService::XNS, XrplNetwork::Mainnet) => Some("rYhfynZDrde1uSvvQAYctApg6DnVE5HKm"),
            (NamingService::XRPDomains, XrplNetwork::Mainnet) => Some(
                "r4pM3nT7r7X1k2WMcSw5Sz8ftUu33TEfA4",
            ),
            _ => None,
        }
    }

    /// Whether the service offers profile data (secondary addresses, text
    /// records) through its own web interface.
    pub open spec fn spec_has_profile_api(self) -> bool {
        self == NamingService::XRPDomains
    }

    pub fn has_profile_api(&self) -> (r: bool)
        ensures
            r == self.spec_has_profile_api(),
    {
        match self {
            NamingService::XRPDomains => true,
            NamingService::XNS => false,
        }
    }
}

/// A non-fungible token as the ledger lists it.
#[derive(Debug, Clone)]
pub struct XrplNft {
    pub nft_token_id: String,
    /// Hex-encoded pointer to the token's metadata.
    pub uri: Option<String>,
    pub issuer: Option<String>,
}

/// Current state of a token as the indexer reports it.
#[derive(Debug, Clone)]
pub struct NftInfo {
    pub nft_id: String,
    pub owner: String,
    pub is_burned: bool,
    pub uri: Option<String>,
    pub issuer: Option<String>,
}

/// One page of an account's token listing.
#[derive(Debug, Clone)]
pub struct AccountNftsResult {
    pub account: String,
    pub nfts: Vec<XrplNft>,
    /// Continuation token; present while more pages remain.
    pub marker: Option<String>,
}

/// The envelope of a ledger or indexer reply.
#[derive(Debug, Clone)]
pub struct RpcResponse<T> {
    pub result: T,
}

/// The value of a metadata attribute: text, or any other JSON value kept as
/// its serialized form.
#[derive(Debug, Clone)]
pub enum AttributeValue {
    Text(String),
    Other(String),
}

impl AttributeValue {
    pub open spec fn spec_as_text(self) -> Option<Seq<char>> {
        match self {
            AttributeValue::Text(s) => Some(s@),
            AttributeValue::Other(_) => None,
        }
    }
}

/// A typed attribute of a metadata document.
#[derive(Debug, Clone)]
pub struct MetadataAttribute {
    pub trait_type: String,
    pub value: AttributeValue,
}

/// The value under key `k` among fields, the first one that has it.
pub open spec fn field_value(s: Seq<(Seq<char>, AttributeValue)>, k: Seq<char>) -> Option<
    AttributeValue,
>
    decreases s.len(),
{
    if s.len() == 0 {
        None
    } else if s[0].0 == k {
        Some(s[0].1)
    } else {
        field_value(s.skip(1), k)
    }
}

pub open spec fn field_keys_unique(s: Seq<(Seq<char>, AttributeValue)>) -> bool {
    forall|i: int, j: int| 0 <= i < s.len() && 0 <= j < s.len() && i != j ==> s[i].0 != s[j].0
}

/// The fields after setting `k` to `v`: in place when the key is there,
/// else at the end.
pub open spec fn field_inserted(
    s: Seq<(Seq<char>, AttributeValue)>,
    k: Seq<char>,
    v: AttributeValue,
) -> Seq<(Seq<char>, AttributeValue)> {
    if exists|i: int| 0 <= i < s.len() && #[trigger] s[i].0 == k {
        s.update(choose|i: int| 0 <= i < s.len() && s[i].0 == k, (k, v))
    } else {
        s.push((k, v))
    }
}

/// The fields of a metadata document beyond the known ones, in document
/// order, each key once.
#[derive(Debug)]
pub struct ExtraFields {
    entries: Vec<(String, AttributeValue)>,
}

impl ExtraFields {
    #[verifier::type_invariant]
    spec fn keys_unique(self) -> bool {
        field_keys_unique(self.entries@.map_values(|e: (String, AttributeValue)| (e.0@, e.1)))
    }

    pub closed spec fn spec_entries(&self) -> Seq<(Seq<char>, AttributeValue)> {
        self.entries@.map_values(|e: (String, AttributeValue)| (e.0@, e.1))
    }

    pub fn new() -> (r: Self)
        ensures
            r.spec_entries() == Seq::<(Seq<char>, AttributeValue)>::empty(),
    {
        let r = ExtraFields { entries: Vec::new() };
        assert(r.spec_entries() =~= Seq::<(Seq<char>, AttributeValue)>::empty());
        r
    }

    /// Sets `key` to `value`: an existing field keeps its place and takes
    /// the new value, a new key goes to the end.
    pub fn insert(&mut self, key: String, value: AttributeValue)
        ensures
            final(self).spec_entries() == field_inserted(old(self).spec_entries(), key@, value),
    {
        proof {
            use_type_invariant(&*self);
        }
        let ghost before = self.spec_entries();
        let mut entries: Vec<(String, AttributeValue)> = Vec::new();
        std::mem::swap(&mut entries, &mut self.entries);
        assert(entries@.map_values(|e: (String, AttributeValue)| (e.0@, e.1)) == before);
        let n = entries.len();
        let mut i: usize = 0;
        while i < n
            invariant
                n == entries@.len(),
                entries@.map_values(|e: (String, AttributeValue)| (e.0@, e.1)) == before,
                field_keys_unique(before),
                before == old(self).spec_entries(),
                i <= n,
                forall|j: int| 0 <= j < i ==> before[j].0 != key@,
            decreases n - i,
        {
            if entries[i].0 == key {
                let ghost k = key@;
                assert(before[i as int] == (entries@[i as int].0@, entries@[i as int].1));
                entries.set(i, (key, value));
                assert(entries@.map_values(|e: (String, AttributeValue)| (e.0@, e.1))
                    =~= before.update(i as int, (k, value)));
                assert(exists|j: int| 0 <= j < before.len() && #[trigger] before[j].0 == k) by {
                    assert(before[i as int].0 == k);
                }
                let ghost c = choose|j: int| 0 <= j < before.len() && before[j].0 == k;
                assert(c == i);
                self.entries = entries;
                return;
            }
            i = i + 1;
        }
        entries.push((key, value));
        assert(entries@.map_values(|e: (String, AttributeValue)| (e.0@, e.1)) =~= before.push(
            (key@, value),
        ));
        self.entries = entries;
    }

    /// The value of the field `key`, if the document has it.
    pub fn value_of(&self, key: &str) -> (r: Option<&AttributeValue>)
        ensures
            r is Some <==> field_value(self.spec_entries(), key@) is Some,
            r is Some ==> *r->0 == field_value(self.spec_entries(), key@)->0,
    {
        let n = self.entries.len();
        let mut i: usize = 0;
        assert(self.spec_entries().skip(0) =~= self.spec_entries());
        while i < n
            invariant
                n == self.entries@.len(),
                i <= n,
                field_value(self.spec_entries(), key@) == field_value(
                    self.spec_entries().skip(i as int),
                    key@,
                ),
            decreases n - i,
        {
            assert(self.spec_entries().skip(i as int).skip(1) =~= self.spec_entries().skip(i + 1));
            assert(self.spec_entries().skip(i as int)[0] == (
                self.entries@[i as int].0@,
                self.entries@[i as int].1,
            ));
            if same_text(self.entries[i].0.as_str(), key) {
                return Some(&self.entries[i].1);
            }
            i = i + 1;
        }
        assert(self.spec_entries().skip(n as int) =~= Seq::<(Seq<char>, AttributeValue)>::empty());
        None
    }

    /// The fields, in document order.
    pub fn entries(&self) -> (r: &Vec<(String, AttributeValue)>)
        ensures
            r@.map_values(|e: (String, AttributeValue)| (e.0@, e.1)) == self.spec_entries(),
    {
        &self.entries
    }
}

impl Clone for ExtraFields {
    fn clone(&self) -> (r: Self)
        ensures
            r.spec_entries().len() == self.spec_entries().len(),
            forall|i: int|
                0 <= i < r.spec_entries().len() ==> #[trigger] r.spec_entries()[i].0
                    == self.spec_entries()[i].0,
    {
        proof {
            use_type_invariant(self);
        }
        let mut entries: Vec<(String, AttributeValue)> = Vec::new();
        let n = self.entries.len();
        let mut i: usize = 0;
        while i < n
            invariant
                n == self.entries@.len(),
                i <= n,
                entries@.len() == i,
                forall|j: int| 0 <= j < i ==> #[trigger] entries@[j].0@ == self.entries@[j].0@,
            decreases n - i,
        {
            entries.push((self.entries[i].0.clone(), self.entries[i].1.clone()));
            i = i + 1;
        }
        let ghost v = entries@.map_values(|e: (String, AttributeValue)| (e.0@, e.1));
        assert(forall|j: int| 0 <= j < n ==> #[trigger] v[j].0 == self.spec_entries()[j].0);
        ExtraFields { entries }
    }
}

/// The document a token's URI points to. Fields outside the known ones are
/// kept in `extra`.
#[derive(Debug, Clone)]
pub struct NftMetadata {
    pub name: String,
    pub description: String,
    pub image: String,
    pub attributes: Vec<MetadataAttribute>,
    pub extra: ExtraFields,
}

/// A small string-to-string map that keeps its keys unique and its entries in
/// the order they were first inserted.
#[derive(Debug, Clone)]
pub struct RecordMap {
    entries: Vec<(String, String)>,
}

pub open spec fn has_key(s: Seq<(Seq<char>, Seq<char>)>, k: Seq<char>) -> bool {
    exists|i: int| 0 <= i < s.len() && #[trigger] s[i].0 == k
}

pub open spec fn keys_unique(s: Seq<(Seq<char>, Seq<char>)>) -> bool {
    forall|i: int, j: int| 0 <= i < s.len() && 0 <= j < s.len() && i != j ==> s[i].0 != s[j].0
}

/// The place of key `k` among entries whose keys are unique.
pub open spec fn key_index(s: Seq<(Seq<char>, Seq<char>)>, k: Seq<char>) -> int {
    choose|i: int| 0 <= i < s.len() && s[i].0 == k
}

/// The entries after setting `k` to `v`: in place when the key is there,
/// else at the end.
pub open spec fn inserted(s: Seq<(Seq<char>, Seq<char>)>, k: Seq<char>, v: Seq<char>) -> Seq<
    (Seq<char>, Seq<char>),
> {
    if has_key(s, k) {
        s.update(key_index(s, k), (k, v))
    } else {
        s.push((k, v))
    }
}

impl RecordMap {
    /// The entries, in insertion order.
    pub closed spec fn spec_entries(&self) -> Seq<(Seq<char>, Seq<char>)> {
        self.entries@.map_values(|e: (String, String)| (e.0@, e.1@))
    }

    pub open spec fn wf(&self) -> bool {
        keys_unique(self.spec_entries())
    }

    pub fn new() -> (r: Self)
        ensures
            r.spec_entries() == Seq::<(Seq<char>, Seq<char>)>::empty(),
            r.wf(),
    {
        let r = RecordMap { entries: Vec::new() };
        assert(r.spec_entries() =~= Seq::<(Seq<char>, Seq<char>)>::empty());
        r
    }

    pub fn len(&self) -> (r: usize)
        ensures
            r == self.spec_entries().len(),
    {
        self.entries.len()
    }

    /// Sets `key` to `value`: an existing entry keeps its place and takes the
    /// new value, a new key goes to the end.
    pub fn insert(&mut self, key: String, value: String)
        requires
            old(self).wf(),
        ensures
            final(self).wf(),
            final(self).spec_entries() == inserted(old(self).spec_entries(), key@, value@),
    {
        let ghost before = self.spec_entries();
        let n = self.entries.len();
        let mut i: usize = 0;
        while i < n
            invariant
                n == self.entries@.len(),
                self.spec_entries() == before,
                before == old(self).spec_entries(),
                keys_unique(before),
                i <= n,
                forall|j: int| 0 <= j < i ==> before[j].0 != key@,
            decreases n - i,
        {
            if self.entries[i].0 == key {
                let ghost k = key@;
                let ghost v = value@;
                assert(before[i as int] == (self.entries@[i as int].0@, self.entries@[i as int].1@));
                assert(before[i as int].0 == k);
                self.entries.set(i, (key, value));
                assert(self.spec_entries() =~= before.update(i as int, (k, v)));
                assert(has_key(before, k));
                assert(key_index(before, k) == i);
                return;
            }
            i = i + 1;
        }
        self.entries.push((key, value));
        assert(self.spec_entries() =~= before.push((key@, value@)));
        assert(!has_key(before, key@));
    }

    /// The value stored under `key`.
    pub fn get(&self, key: &str) -> (r: Option<String>)
        ensures
            r is Some <==> has_key(self.spec_entries(), key@),
            r is Some ==> exists|i: int|
                0 <= i < self.spec_entries().len() && self.spec_entries()[i] == (key@, r->0@),
    {
        let n = self.entries.len();
        let mut i: usize = 0;
        while i < n
            invariant
                n == self.entries@.len(),
                i <= n,
                forall|j: int| 0 <= j < i ==> self.spec_entries()[j].0 != key@,
            decreases n - i,
        {
            if same_text(self.entries[i].0.as_str(), key) {
                assert(self.spec_entries()[i as int] == (
                    self.entries@[i as int].0@,
                    self.entries@[i as int].1@,
                ));
                assert(self.spec_entries()[i as int].0 == key@);
                return Some(self.entries[i].1.clone());
            }
            i = i + 1;
        }
        None
    }

    /// The entries, in insertion order.
    pub fn entries(&self) -> (r: &Vec<(String, String)>)
        ensures
            r@.map_values(|e: (String, String)| (e.0@, e.1@)) == self.spec_entries(),
    {
        &self.entries
    }
}

/// The result of resolving a domain.
#[derive(Debug, Clone)]
pub struct DomainInfo {
    pub domain: String,
    /// The account holding the domain's token.
    pub owner: String,
    /// False when the indexer could not be asked and `owner` is a placeholder.
    pub owner_verified: bool,
    pub nft_id: String,
    pub service: NamingService,
    /// Secondary address bindings, keyed by lower-case chain symbol.
    pub addresses: RecordMap,
    /// Free-text records (email, social handles, website).
    pub text_records: RecordMap,
    pub expires_at: Option<u64>,
    pub metadata: Option<NftMetadata>,
}

} // verus!
