//! Deposit history.
use crate::client::rest::{lemma_upper_case_word_is_method, KuCoinClient, SignedRequest};
use crate::utils::errors::KucoinResults;
use crate::types::deposit::{
    Deposit, DepositHistoryFilter, DepositHistoryRequest, DepositList, DepositStatus,
};
use crate::types::KuCoinResponse;
use crate::utils::text::{signed_decimal, signed_decimal_string};
use vstd::prelude::*;

verus! {

/// The deposit endpoints of one client.
pub struct DepositHandler<'a> {
    /// The client whose credentials sign the requests.
    pub client: &'a KuCoinClient,
}

/// The `application/x-www-form-urlencoded` text of a list of names and
/// values.
pub uninterp spec fn form_urlencoded(pairs: Seq<(Seq<char>, Seq<char>)>) -> Seq<char>;

/// Calls `serde_urlencoded::to_string` on a list of pairs of strings.
/// Assumed: the text is a function of the pairs alone.  The call fails only
/// on values that are no pairs of texts or numbers, so never here.
#[verifier::external_body]
fn urlencode(pairs: &Vec<(String, String)>) -> (query: String)
    ensures
        query@ == form_urlencoded(pairs.deep_view()),
{
    serde_urlencoded::to_string(pairs).expect("pairs of strings always serialize")
}

/// The pair for a parameter that may be absent.
pub open spec fn optional_pair(name: Seq<char>, value: Option<Seq<char>>) -> Seq<
    (Seq<char>, Seq<char>),
> {
    match value {
        Some(text) => seq![(name, text)],
        None => Seq::empty(),
    }
}

/// The decimal numeral of a number that may be absent.
pub open spec fn optional_decimal(value: Option<i64>) -> Option<Seq<char>> {
    match value {
        Some(number) => Some(signed_decimal(number as int)),
        None => None,
    }
}

/// The parameters of a deposit history query: each field that is set, under
/// its name in the API, in the order of the fields.
pub open spec fn deposit_query_pairs(filter: DepositHistoryFilter) -> Seq<(Seq<char>, Seq<char>)> {
    optional_pair("currency"@, filter.currency) + optional_pair(
        "currentPage"@,
        optional_decimal(filter.current_page),
    ) + optional_pair("endAt"@, optional_decimal(filter.end_at)) + optional_pair(
        "pageSize"@,
        optional_decimal(filter.page_size),
    ) + optional_pair("startAt"@, optional_decimal(filter.start_at)) + optional_pair(
        "status"@,
        match filter.status {
            Some(status) => Some(status.wire_name()),
            None => None,
        },
    )
}

fn push_optional(pairs: &mut Vec<(String, String)>, name: &str, value: Option<String>)
    ensures
        final(pairs).deep_view() == old(pairs).deep_view() + optional_pair(
            name@,
            value.deep_view(),
        ),
{
    match value {
        Some(text) => {
            pairs.push((String::from_str(name), text));
            assert(pairs.deep_view() =~= old(pairs).deep_view() + seq![(name@, text@)]);
        },
        None => {
            assert(pairs.deep_view() =~= old(pairs).deep_view() + Seq::empty());
        },
    }
}

fn decimal_of(value: Option<i64>) -> (text: Option<String>)
    ensures
        text.deep_view() == optional_decimal(value),
{
    match value {
        Some(number) => Some(signed_decimal_string(number)),
        None => None,
    }
}

impl DepositHistoryRequest {
    /// Create a new deposit query for `currency` (BTC, ETH, USDT ...).
    pub fn new(currency: &str) -> (request: Self)
        ensures
            request@ == (DepositHistoryFilter {
                currency: Some(currency@),
                current_page: None,
                end_at: None,
                page_size: None,
                start_at: None,
                status: None,
            }),
    {
        DepositHistoryRequest {
            currency: Some(String::from_str(currency)),
            current_page: None,
            end_at: None,
            page_size: None,
            start_at: None,
            status: None,
        }
    }

    /// Set the status (chainable).
    pub fn set_status(self, status: DepositStatus) -> (request: Self)
        ensures
            request@ == (DepositHistoryFilter { status: Some(status), ..self@ }),
    {
        let mut request = self;
        request.status = Some(status);
        request
    }

    /// Set the current page (chainable).
    pub fn set_current_page(self, page: i64) -> (request: Self)
        ensures
            request@ == (DepositHistoryFilter { current_page: Some(page), ..self@ }),
    {
        let mut request = self;
        request.current_page = Some(page);
        request
    }

    /// Set the page size (chainable).  The API usually requires at least 10
    /// and at most 500.
    pub fn set_page_size(self, size: i64) -> (request: Self)
        ensures
            request@ == (DepositHistoryFilter { page_size: Some(size), ..self@ }),
    {
        let mut request = self;
        request.page_size = Some(size);
        request
    }

    /// Set the start timestamp in milliseconds (chainable).
    pub fn set_start_at(self, start_at: i64) -> (request: Self)
        ensures
            request@ == (DepositHistoryFilter { start_at: Some(start_at), ..self@ }),
    {
        let mut request = self;
        request.start_at = Some(start_at);
        request
    }

    /// Set the end timestamp in milliseconds (chainable).
    pub fn set_end_at(self, end_at: i64) -> (request: Self)
        ensures
            request@ == (DepositHistoryFilter { end_at: Some(end_at), ..self@ }),
    {
        let mut request = self;
        request.end_at = Some(end_at);
        request
    }

    /// The parameters of the query, as names and values.
    pub fn query_pairs(&self) -> (pairs: Vec<(String, String)>)
        ensures
            pairs.deep_view() == deposit_query_pairs(self@),
    {
        let mut pairs: Vec<(String, String)> = Vec::new();
        assert(pairs.deep_view() =~= Seq::empty());
        push_optional(&mut pairs, "currency", self.currency.clone());
        push_optional(&mut pairs, "currentPage", decimal_of(self.current_page));
        push_optional(&mut pairs, "endAt", decimal_of(self.end_at));
        push_optional(&mut pairs, "pageSize", decimal_of(self.page_size));
        push_optional(&mut pairs, "startAt", decimal_of(self.start_at));
        let status = match &self.status {
            Some(status) => Some(status.as_wire_name()),
            None => None,
        };
        push_optional(&mut pairs, "status", status);
        assert(pairs.deep_view() =~= deposit_query_pairs(self@));
        pairs
    }

    /// The path of the query: `/api/v1/deposits?` followed by the encoded
    /// parameters.
    pub fn build_endpoint(&self) -> (endpoint: String)
        ensures
            endpoint@ == "/api/v1/deposits?"@ + form_urlencoded(deposit_query_pairs(self@)),
    {
        let pairs = self.query_pairs();
        let query = urlencode(&pairs);
        String::from_str("/api/v1/deposits?").concat(query.as_str())
    }
}

/// True when `deposit` was made by the wallet transaction `signature`.
pub open spec fn has_tx_hash(deposit: Deposit, signature: Seq<char>) -> bool {
    deposit.wallet_tx_id matches Some(id) && id@ == signature
}

impl<'a> DepositHandler<'a> {
    /// The signed `GET` request of a deposit history query.
    pub fn history_request(
        &self,
        filter: &DepositHistoryRequest,
    ) -> (request: KucoinResults<SignedRequest>)
        ensures
            self.client.signed_now(
                request,
                "GET"@,
                "/api/v1/deposits?"@ + form_urlencoded(deposit_query_pairs(filter@)),
                ""@,
            ),
    {
        let endpoint = filter.build_endpoint();
        proof {
            reveal_strlit("GET");
            lemma_upper_case_word_is_method("GET"@);
        }
        self.client.sign_request("GET", "", endpoint.as_str())
    }

    /// The signed request that a lookup by transaction hash sends: the
    /// history query of the empty currency, with no other filter.
    pub fn tx_lookup_request(&self) -> (request: KucoinResults<SignedRequest>)
        ensures
            self.client.signed_now(
                request,
                "GET"@,
                "/api/v1/deposits?"@ + form_urlencoded(seq![("currency"@, ""@)]),
                ""@,
            ),
    {
        let filter = DepositHistoryRequest::new("");
        assert(deposit_query_pairs(filter@) =~= seq![("currency"@, ""@)]);
        self.history_request(&filter)
    }

    /// The first deposit of the history whose wallet transaction id is
    /// `signature`; `None` when the response carries no data or no deposit
    /// has that id.
    pub fn pick_by_tx_hash(
        deposit_log: KuCoinResponse<DepositList>,
        signature: &str,
    ) -> (found: Option<Deposit>)
        ensures
            match deposit_log.data {
                None => found is None,
                Some(list) => match found {
                    Some(deposit) => exists|i: int|
                        0 <= i < list.items@.len() && #[trigger] list.items@[i] == deposit
                            && has_tx_hash(deposit, signature@) && forall|j: int|
                            0 <= j < i ==> !has_tx_hash(#[trigger] list.items@[j], signature@),
                    None => forall|j: int|
                        0 <= j < list.items@.len() ==> !has_tx_hash(
                            #[trigger] list.items@[j],
                            signature@,
                        ),
                },
            },
    {
        let mut items = match deposit_log.data {
            Some(list) => list.items,
            None => {
                return None;
            },
        };
        let wanted = String::from_str(signature);
        let mut index: usize = 0;
        while index < items.len()
            invariant
                index <= items@.len(),
                wanted@ == signature@,
                deposit_log.data matches Some(list) && list.items@ == items@,
                forall|j: int| 0 <= j < index ==> !has_tx_hash(#[trigger] items@[j], signature@),
            decreases items@.len() - index,
        {
            let matches_id = match &items[index].wallet_tx_id {
                Some(id) => *id == wanted,
                None => false,
            };
            if matches_id {
                let ghost all = items@;
                let deposit = items.remove(index);
                assert(all[index as int] == deposit);
                return Some(deposit);
            }
            index = index + 1;
        }
        None
    }
}

} // verus!
