use vstd::prelude::*;
use vstd::string::*;
use vstd::utf8::*;
use crate::error::XnsError;
use crate::models::{field_value, AttributeValue, MetadataAttribute, NftMetadata};
use crate::text::{ends_with, has_prefix, has_suffix, joined, same_text, starts_with};

verus! {

pub open spec fn is_hex_digit(b: u8) -> bool {
    (48 <= b && b <= 57) || (65 <= b && b <= 70) || (97 <= b && b <= 102)
}

pub open spec fn hex_value(b: u8) -> int {
    if 48 <= b && b <= 57 {
        b - 48
    } else if 65 <= b && b <= 70 {
        b - 55
    } else {
        b - 87
    }
}

/// Hex text: an even number of hex digits, either case.
pub open spec fn is_hex_text(s: Seq<u8>) -> bool {
    s.len() % 2 == 0 && forall|i: int| 0 <= i < s.len() ==> #[trigger] is_hex_digit(s[i])
}

/// The bytes that hex text stands for, two digits per byte, high digit first.
pub open spec fn hex_bytes(s: Seq<u8>) -> Seq<u8> {
    Seq::new(s.len() / 2, |i: int| (hex_value(s[2 * i]) * 16 + hex_value(s[2 * i + 1])) as u8)
}

/// The text a hex-encoded URI stands for, if it is hex holding UTF-8.
pub open spec fn spec_decoded_uri(hex: Seq<u8>) -> Option<Seq<char>> {
    if is_hex_text(hex) && valid_utf8(hex_bytes(hex)) {
        Some(decode_utf8(hex_bytes(hex)))
    } else {
        None
    }
}

/// Relies on hex::decode: it accepts exactly an even number of hex digits of
/// either case and yields one byte per pair, high digit first.
#[verifier::external_body]
fn decode_hex(s: &str) -> (r: Result<Vec<u8>, String>)
    ensures
        r is Ok <==> is_hex_text(s.spec_bytes()),
        r is Ok ==> r->Ok_0@ == hex_bytes(s.spec_bytes()),
{
    hex::decode(s).map_err(|e| e.to_string())
}

/// Relies on String::from_utf8: it accepts exactly valid UTF-8 and keeps the
/// characters that the bytes encode.
#[verifier::external_body]
fn utf8_text(bytes: Vec<u8>) -> (r: Result<String, String>)
    ensures
        r is Ok <==> valid_utf8(bytes@),
        r is Ok ==> r->Ok_0@ == decode_utf8(bytes@),
{
    String::from_utf8(bytes).map_err(|e| e.to_string())
}

/// Decodes a hex-encoded token URI into its text.
pub fn decode_uri(uri_hex: &str) -> (r: Result<String, XnsError>)
    ensures
        spec_decoded_uri(uri_hex.spec_bytes()) is Some ==> r is Ok && r->Ok_0@
            == spec_decoded_uri(uri_hex.spec_bytes())->0,
        spec_decoded_uri(uri_hex.spec_bytes()) is None ==> r is Err && r->Err_0 is ParseError,
{
    let bytes = match decode_hex(uri_hex) {
        Ok(b) => b,
        Err(e) => {
            return Err(XnsError::ParseError(joined("Hex decode error: ", e.as_str())));
        },
    };
    match utf8_text(bytes) {
        Ok(t) => Ok(t),
        Err(e) => Err(XnsError::ParseError(joined("Invalid UTF-8 in URI: ", e.as_str()))),
    }
}

/// Where a token's metadata document is to be had.
#[derive(Debug, Clone)]
pub enum UriSource {
    /// A content identifier, fetched through public gateways.
    Ipfs(String),
    /// A web address, fetched with one GET.
    Http(String),
    /// The document itself, written into the URI.
    Embedded(String),
}

pub open spec fn is_ipfs(u: Seq<char>) -> bool {
    starts_with(u, "ipfs://"@)
}

pub open spec fn is_http(u: Seq<char>) -> bool {
    starts_with(u, "http://"@) || starts_with(u, "https://"@)
}

pub open spec fn is_embedded(u: Seq<char>) -> bool {
    starts_with(u, "{"@) || starts_with(u, "["@)
}

/// Sorts decoded URI text by its scheme: content-addressed first, then web,
/// then a literal JSON document.
pub fn classify_uri(uri: String) -> (r: Result<UriSource, XnsError>)
    ensures
        is_ipfs(uri@) ==> (r matches Ok(UriSource::Ipfs(cid)) && cid@ == uri@.skip(
            "ipfs://"@.len() as int,
        )),
        !is_ipfs(uri@) && is_http(uri@) ==> (r matches Ok(UriSource::Http(u)) && u@ == uri@),
        !is_ipfs(uri@) && !is_http(uri@) && is_embedded(uri@) ==> (r matches Ok(
            UriSource::Embedded(j),
        ) && j@ == uri@),
        !is_ipfs(uri@) && !is_http(uri@) && !is_embedded(uri@) ==> r matches Err(
            XnsError::MetadataError(_),
        ),
{
    let scheme = "ipfs://";
    if has_prefix(uri.as_str(), scheme) {
        let n = uri.as_str().unicode_len();
        let k = scheme.unicode_len();
        let cid = uri.as_str().substring_char(k, n);
        return Ok(UriSource::Ipfs(String::from_str(cid)));
    }
    if has_prefix(uri.as_str(), "http://") || has_prefix(uri.as_str(), "https://") {
        return Ok(UriSource::Http(uri));
    }
    if has_prefix(uri.as_str(), "{") || has_prefix(uri.as_str(), "[") {
        return Ok(UriSource::Embedded(uri));
    }
    Err(XnsError::MetadataError(joined("Unsupported URI format: ", uri.as_str())))
}

/// What to fetch for a token's metadata.
#[derive(Debug, Clone)]
pub enum FetchPlan {
    /// The document is already at hand.
    Document(String),
    /// One web address; a failure there is a network error.
    Url(String),
    /// Addresses to try in order until one yields a document.
    Gateways(Vec<String>),
}

/// The domain suffix every name of the system carries.
pub open spec fn domain_suffix() -> Seq<char> {
    ".xrp"@
}

/// A candidate domain read from one attribute: its key is `domain` or `name`
/// and its value is text ending with the suffix.
pub open spec fn attribute_domain(a: MetadataAttribute) -> Option<Seq<char>> {
    if (a.trait_type@ == "domain"@ || a.trait_type@ == "name"@) && a.value.spec_as_text() is Some
        && ends_with(a.value.spec_as_text()->0, domain_suffix()) {
        a.value.spec_as_text()
    } else {
        None
    }
}

/// The first attribute that names a domain.
pub open spec fn first_attribute_domain(attrs: Seq<MetadataAttribute>) -> Option<Seq<char>>
    decreases attrs.len(),
{
    if attrs.len() == 0 {
        None
    } else if attribute_domain(attrs[0]) is Some {
        attribute_domain(attrs[0])
    } else {
        first_attribute_domain(attrs.skip(1))
    }
}

/// The domain a metadata document names: its display name, else the first
/// `domain`/`name` attribute, else the extra `domain` field; each counts only
/// if it is text ending with the suffix.
pub open spec fn spec_domain_name(m: NftMetadata) -> Option<Seq<char>> {
    if ends_with(m.name@, domain_suffix()) {
        Some(m.name@)
    } else if first_attribute_domain(m.attributes@) is Some {
        first_attribute_domain(m.attributes@)
    } else {
        match field_value(m.extra.spec_entries(), "domain"@) {
            Some(AttributeValue::Text(s)) => if ends_with(s@, domain_suffix()) {
                Some(s@)
            } else {
                None
            },
            _ => None,
        }
    }
}

/// Reads metadata URIs and finds the domain a document names.
#[derive(Debug, Clone)]
pub struct MetadataParser {
    gateways: Vec<String>,
}

impl MetadataParser {
    pub closed spec fn spec_gateways(&self) -> Seq<Seq<char>> {
        self.gateways@.map_values(|g: String| g@)
    }

    /// A parser with the public gateways, in the order they are tried.
    pub fn new() -> (r: Self)
        ensures
            r.spec_gateways() == seq![
                "https://ipfs.io/ipfs/"@,
                "https://gateway.pinata.cloud/ipfs/"@,
                "https://cloudflare-ipfs.com/ipfs/"@,
            ],
    {
        let mut g: Vec<String> = Vec::new();
        g.push(String::from_str("https://ipfs.io/ipfs/"));
        g.push(String::from_str("https://gateway.pinata.cloud/ipfs/"));
        g.push(String::from_str("https://cloudflare-ipfs.com/ipfs/"));
        let r = MetadataParser { gateways: g };
        assert(r.spec_gateways() =~= seq![
            "https://ipfs.io/ipfs/"@,
            "https://gateway.pinata.cloud/ipfs/"@,
            "https://cloudflare-ipfs.com/ipfs/"@,
        ]);
        r
    }

    /// A parser with gateways of the caller's choice, tried in order.
    pub fn with_gateways(gateways: Vec<String>) -> (r: Self)
        ensures
            r.spec_gateways() == gateways@.map_values(|g: String| g@),
    {
        MetadataParser { gateways }
    }

    /// The addresses at which a content identifier is looked for: each
    /// gateway's base followed by the identifier.
    pub fn gateway_urls(&self, cid: &str) -> (r: Vec<String>)
        ensures
            r@.len() == self.spec_gateways().len(),
            forall|i: int| 0 <= i < r@.len() ==> #[trigger] r@[i]@ == self.spec_gateways()[i] + cid@,
    {
        let mut out: Vec<String> = Vec::new();
        let n = self.gateways.len();
        let mut i: usize = 0;
        while i < n
            invariant
                n == self.gateways@.len(),
                i <= n,
                out@.len() == i,
                forall|j: int| 0 <= j < i ==> #[trigger] out@[j]@ == self.spec_gateways()[j] + cid@,
            decreases n - i,
        {
            out.push(joined(self.gateways[i].as_str(), cid));
            i = i + 1;
        }
        out
    }

    /// Decodes a hex-encoded token URI and says where its document is to be
    /// had.
    pub fn parse_uri(&self, uri_hex: &str) -> (r: Result<FetchPlan, XnsError>)
        ensures
            spec_decoded_uri(uri_hex.spec_bytes()) is None ==> r matches Err(
                XnsError::ParseError(_),
            ),
            spec_decoded_uri(uri_hex.spec_bytes()) matches Some(u) ==> {
                &&& is_ipfs(u) ==> (r matches Ok(FetchPlan::Gateways(urls)) && urls@.len()
                    == self.spec_gateways().len() && forall|i: int|
                    0 <= i < urls@.len() ==> #[trigger] urls@[i]@ == self.spec_gateways()[i]
                        + u.skip("ipfs://"@.len() as int))
                &&& !is_ipfs(u) && is_http(u) ==> (r matches Ok(FetchPlan::Url(a)) && a@ == u)
                &&& !is_ipfs(u) && !is_http(u) && is_embedded(u) ==> (r matches Ok(
                    FetchPlan::Document(d),
                ) && d@ == u)
                &&& !is_ipfs(u) && !is_http(u) && !is_embedded(u) ==> r matches Err(
                    XnsError::MetadataError(_),
                )
            },
    {
        let text = match decode_uri(uri_hex) {
            Ok(t) => t,
            Err(e) => {
                return Err(e);
            },
        };
        match classify_uri(text) {
            Ok(UriSource::Ipfs(cid)) => Ok(FetchPlan::Gateways(self.gateway_urls(cid.as_str()))),
            Ok(UriSource::Http(u)) => Ok(FetchPlan::Url(u)),
            Ok(UriSource::Embedded(j)) => Ok(FetchPlan::Document(j)),
            Err(e) => Err(e),
        }
    }

    /// The domain a metadata document names, by the fixed order of rules.
    pub fn extract_domain_name(metadata: &NftMetadata) -> (r: Option<String>)
        ensures
            r is Some == spec_domain_name(*metadata) is Some,
            r is Some ==> r->0@ == spec_domain_name(*metadata)->0,
    {
        if has_suffix(metadata.name.as_str(), ".xrp") {
            return Some(metadata.name.clone());
        }
        let n = metadata.attributes.len();
        let mut i: usize = 0;
        assert(metadata.attributes@.skip(0) =~= metadata.attributes@);
        while i < n
            invariant
                n == metadata.attributes@.len(),
                i <= n,
                !ends_with(metadata.name@, domain_suffix()),
                first_attribute_domain(metadata.attributes@) == first_attribute_domain(metadata.attributes@.skip(i as int)),
            decreases n - i,
        {
            assert(metadata.attributes@.skip(i as int).skip(1) =~= metadata.attributes@.skip(i + 1));
            let a = &metadata.attributes[i];
            assert(metadata.attributes@.skip(i as int)[0] == metadata.attributes@[i as int]);
            if same_text(a.trait_type.as_str(), "domain") || same_text(a.trait_type.as_str(), "name") {
                match &a.value {
                    AttributeValue::Text(v) => {
                        if has_suffix(v.as_str(), ".xrp") {
                            assert(attribute_domain(metadata.attributes@[i as int]) == Some(v@));
                            assert(first_attribute_domain(metadata.attributes@.skip(i as int)) == Some(v@));
                            return Some(v.clone());
                        }
                    },
                    AttributeValue::Other(_) => {},
                }
            }
            i = i + 1;
        }
        match metadata.extra.value_of("domain") {
            Some(AttributeValue::Text(v)) => {
                if has_suffix(v.as_str(), ".xrp") {
                    Some(v.clone())
                } else {
                    None
                }
            },
            _ => None,
        }
    }
}

/// The next step of a metadata fetch through gateways.
#[derive(Debug)]
pub enum FetchStep {
    /// Fetch this address and report the outcome.
    Fetch(String),
    /// The fetch is over.
    Done(Result<NftMetadata, XnsError>),
}

/// Tries a content identifier's gateway addresses one at a time; the first
/// document read wins, and only when every gateway failed does the fetch fail.
pub struct GatewayFallback {
    urls: Vec<String>,
    tried: usize,
}

impl GatewayFallback {
    pub closed spec fn spec_urls(&self) -> Seq<Seq<char>> {
        self.urls@.map_values(|u: String| u@)
    }

    /// How many gateways have failed so far.
    pub closed spec fn spec_tried(&self) -> int {
        self.tried as int
    }

    /// Starts a fetch over `urls`, in order.
    pub fn new(urls: Vec<String>) -> (r: (GatewayFallback, FetchStep))
        ensures
            r.0.spec_urls() == urls@.map_values(|u: String| u@),
            r.0.spec_tried() == 0,
            urls@.len() == 0 ==> (r.1 matches FetchStep::Done(Err(XnsError::MetadataError(m)))
                && m@ == "All IPFS gateways failed"@),
            urls@.len() > 0 ==> (r.1 matches FetchStep::Fetch(u) && u@ == urls@[0]@),
    {
        let first = if urls.len() == 0 {
            FetchStep::Done(
                Err(XnsError::MetadataError(String::from_str("All IPFS gateways failed"))),
            )
        } else {
            FetchStep::Fetch(urls[0].clone())
        };
        (GatewayFallback { urls, tried: 0 }, first)
    }

    /// Takes the outcome at the current gateway: a document ends the fetch
    /// with it; a failure moves to the next gateway, or, after the last,
    /// ends the fetch with a metadata error that carries the last failure.
    pub fn record(&mut self, outcome: Result<NftMetadata, XnsError>) -> (r: FetchStep)
        requires
            old(self).spec_tried() < old(self).spec_urls().len(),
        ensures
            final(self).spec_urls() == old(self).spec_urls(),
            outcome is Ok ==> r == FetchStep::Done(outcome),
            outcome is Err ==> final(self).spec_tried() == old(self).spec_tried() + 1,
            outcome is Err && final(self).spec_tried() < final(self).spec_urls().len() ==> (
            r matches FetchStep::Fetch(u) && u@ == final(self).spec_urls()[final(self).spec_tried()]),
            outcome is Err && final(self).spec_tried() == final(self).spec_urls().len() ==> (
            r matches FetchStep::Done(Err(XnsError::MetadataError(m))) && m@
                == "All gateways failed: "@ + outcome->Err_0.spec_message()),
    {
        match outcome {
            Ok(m) => FetchStep::Done(Ok(m)),
            Err(e) => {
                let n = self.urls.len();
                self.tried = self.tried + 1;
                if self.tried < n {
                    FetchStep::Fetch(self.urls[self.tried].clone())
                } else {
                    let why = e.message();
                    FetchStep::Done(
                        Err(XnsError::MetadataError(joined("All gateways failed: ", why.as_str()))),
                    )
                }
            },
        }
    }
}

} // verus!
