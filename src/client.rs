use vstd::prelude::*;
use vstd::string::*;
use crate::models::{AccountNftsResult, XrplNft};

verus! {

/// Tokens asked for per page of an account listing.
pub const PAGE_LIMIT: u32 = 400;

/// The parameters of one `account_nfts` request.
#[derive(Debug, Clone)]
pub struct AccountNftsRequest {
    pub account: String,
    pub limit: u32,
    pub ledger_index: String,
    /// Continuation token of the previous page, if any.
    pub marker: Option<String>,
}

/// Gathers an account's tokens page by page, following continuation markers
/// until a page comes without one.
pub struct TokenPager {
    account: String,
    collected: Vec<XrplNft>,
    marker: Option<String>,
    done: bool,
}

impl TokenPager {
    pub closed spec fn spec_account(&self) -> Seq<char> {
        self.account@
    }

    /// The tokens of the pages taken so far, in page order.
    pub closed spec fn spec_collected(&self) -> Seq<XrplNft> {
        self.collected@
    }

    /// The marker to send with the next request.
    pub closed spec fn spec_marker(&self) -> Option<String> {
        self.marker
    }

    /// Whether the last page taken had no marker.
    pub closed spec fn spec_done(&self) -> bool {
        self.done
    }

    pub fn new(account: String) -> (r: Self)
        ensures
            r.spec_account() == account@,
            r.spec_collected().len() == 0,
            r.spec_marker() is None,
            !r.spec_done(),
    {
        TokenPager { account, collected: Vec::new(), marker: None, done: false }
    }

    pub fn is_done(&self) -> (r: bool)
        ensures
            r == self.spec_done(),
    {
        self.done
    }

    /// The request for the next page.
    pub fn request(&self) -> (r: AccountNftsRequest)
        ensures
            r.account@ == self.spec_account(),
            r.limit == PAGE_LIMIT,
            r.ledger_index@ == "validated"@,
            r.marker == self.spec_marker(),
    {
        let marker = match &self.marker {
            Some(m) => Some(m.clone()),
            None => None,
        };
        AccountNftsRequest {
            account: self.account.clone(),
            limit: PAGE_LIMIT,
            ledger_index: String::from_str("validated"),
            marker,
        }
    }

    /// Takes the next page: its tokens go after those already taken, and the
    /// listing is over exactly when the page carries no marker.
    pub fn on_page(&mut self, page: AccountNftsResult)
        requires
            !old(self).spec_done(),
        ensures
            final(self).spec_account() == old(self).spec_account(),
            final(self).spec_collected() == old(self).spec_collected() + page.nfts@,
            final(self).spec_marker() == page.marker,
            final(self).spec_done() == (page.marker is None),
    {
        let mut nfts = page.nfts;
        self.collected.append(&mut nfts);
        self.done = page.marker.is_none();
        self.marker = page.marker;
    }

    /// The tokens of all pages taken, in page order.
    pub fn into_tokens(self) -> (r: Vec<XrplNft>)
        ensures
            r@ == self.spec_collected(),
    {
        self.collected
    }
}

/// A token as the indexer lists it by issuer.
#[derive(Debug, Clone)]
pub struct IssuerNft {
    pub nft_id: String,
    pub owner: String,
    pub uri: Option<String>,
    pub issuer: Option<String>,
}

/// The indexer's issuer listing as ledger tokens, in the same order.
pub fn tokens_from_issuer_listing(listing: Vec<IssuerNft>) -> (r: Vec<XrplNft>)
    ensures
        r@.len() == listing@.len(),
        forall|i: int|
            0 <= i < r@.len() ==> #[trigger] r@[i] == (XrplNft {
                nft_token_id: listing@[i].nft_id,
                uri: listing@[i].uri,
                issuer: listing@[i].issuer,
            }),
{
    let mut out: Vec<XrplNft> = Vec::new();
    let mut rest = listing;
    let ghost all = rest@;
    let n = rest.len();
    let mut i: usize = 0;
    while i < n
        invariant
            n == all.len(),
            i <= n,
            rest@ == all.skip(i as int),
            out@.len() == i,
            forall|j: int|
                0 <= j < i ==> #[trigger] out@[j] == (XrplNft {
                    nft_token_id: all[j].nft_id,
                    uri: all[j].uri,
                    issuer: all[j].issuer,
                }),
        decreases n - i,
    {
        let t = rest.remove(0);
        assert(rest@ =~= all.skip(i + 1));
        out.push(XrplNft { nft_token_id: t.nft_id, uri: t.uri, issuer: t.issuer });
        i = i + 1;
    }
    out
}

} // verus!
