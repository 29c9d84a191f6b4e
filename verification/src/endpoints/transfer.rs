//! Universal transfers between accounts.
use crate::client::rest::{lemma_upper_case_word_is_method, KuCoinClient, SignedRequest};
use crate::types::requests::transfer_req_type::{
    AccountType, TransferFields, TransferRequest, TransferType,
};
use crate::utils::errors::{KucoinErrors, KucoinResults};
use crate::utils::oid::{is_uuid_text, new_client_oid};
use vstd::prelude::*;

verus! {

/// The transfer that a builder starts from: no tags and no user ids.
pub open spec fn blank_transfer(
    client_oid: Seq<char>,
    currency: Seq<char>,
    amount: Seq<char>,
    src_type: AccountType,
    dest_type: AccountType,
    transfer_type: TransferType,
) -> TransferFields {
    TransferFields {
        amount: amount,
        client_oid: client_oid,
        currency: currency,
        from_account_tag: None,
        from_account_type: src_type,
        from_user_id: None,
        to_account_tag: None,
        to_account_type: dest_type,
        to_user_id: None,
        transfer_request_type: transfer_type,
    }
}

/// True for the isolated margin accounts, which are named together with a
/// trading pair.
pub open spec fn is_isolated(account: AccountType) -> bool {
    account == AccountType::Isolated || account == AccountType::IsolatedV2
}

/// True when the source of the transfer lacks the tag it needs.
pub open spec fn sender_tag_missing(transfer: TransferFields) -> bool {
    transfer.from_account_tag is None && is_isolated(transfer.from_account_type)
}

/// True when the destination of the transfer lacks the tag it needs.
pub open spec fn receiver_tag_missing(transfer: TransferFields) -> bool {
    transfer.to_account_tag is None && is_isolated(transfer.to_account_type)
}

/// The side of the transfer that validation finds fault with: the sender
/// before the receiver, and none when every isolated account has its tag.
pub open spec fn missing_tag_side(transfer: TransferFields) -> Option<Seq<char>> {
    if sender_tag_missing(transfer) {
        Some("Sender"@)
    } else if receiver_tag_missing(transfer) {
        Some("Receiver"@)
    } else {
        None
    }
}

/// True when `result` is the validation error that names `side`.
pub open spec fn is_missing_tag_error<T>(result: KucoinResults<T>, side: Seq<char>) -> bool {
    result matches Err(KucoinErrors::MissingIsolatedTag(named)) && named@ == side
}

fn account_is_isolated(account: &AccountType) -> (isolated: bool)
    ensures
        isolated == is_isolated(*account),
{
    match account {
        AccountType::Isolated => true,
        AccountType::IsolatedV2 => true,
        _ => false,
    }
}

impl TransferRequest {
    /// A new transfer request with the given client order id.
    pub fn with_client_oid(
        client_oid: String,
        currency: &str,
        amount: &str,
        src_type: AccountType,
        dest_type: AccountType,
        transfer_type: TransferType,
    ) -> (request: Self)
        ensures
            request@ == blank_transfer(
                client_oid@,
                currency@,
                amount@,
                src_type,
                dest_type,
                transfer_type,
            ),
    {
        TransferRequest {
            amount: String::from_str(amount),
            client_oid,
            currency: String::from_str(currency),
            from_account_tag: None,
            from_account_type: src_type,
            from_user_id: None,
            to_account_tag: None,
            to_account_type: dest_type,
            to_user_id: None,
            transfer_request_type: transfer_type,
        }
    }

    /// Creates a new transfer request with a fresh random client order id.
    ///
    /// `currency` is the asset to transfer (e.g., "USDT"), `amount` the
    /// amount as its decimal text, `src_type` and `dest_type` the account
    /// types of source and destination, `transfer_type` the nature of the
    /// transfer.
    pub fn new(
        currency: &str,
        amount: &str,
        src_type: AccountType,
        dest_type: AccountType,
        transfer_type: TransferType,
    ) -> (request: Self)
        ensures
            exists|client_oid: Seq<char>|
                is_uuid_text(client_oid) && request@ == #[trigger] blank_transfer(
                    client_oid,
                    currency@,
                    amount@,
                    src_type,
                    dest_type,
                    transfer_type,
                ),
    {
        let client_oid = new_client_oid();
        let request = TransferRequest::with_client_oid(
            client_oid,
            currency,
            amount,
            src_type,
            dest_type,
            transfer_type,
        );
        assert(request@ == blank_transfer(
            client_oid@,
            currency@,
            amount@,
            src_type,
            dest_type,
            transfer_type,
        ));
        request
    }

    /// Sets the trading pair of the source (e.g., "BTC-USDT").  Required only
    /// when the source is an `ISOLATED` margin account.
    pub fn set_from_account_tag(self, symbol: &str) -> (request: Self)
        ensures
            request@ == (TransferFields { from_account_tag: Some(symbol@), ..self@ }),
    {
        let mut request = self;
        request.from_account_tag = Some(String::from_str(symbol));
        request
    }

    /// Sets the trading pair of the destination (e.g., "BTC-USDT").  Required
    /// only when the destination is an `ISOLATED` margin account.
    pub fn set_to_account_tag(self, symbol: &str) -> (request: Self)
        ensures
            request@ == (TransferFields { to_account_tag: Some(symbol@), ..self@ }),
    {
        let mut request = self;
        request.to_account_tag = Some(String::from_str(symbol));
        request
    }

    /// Sets the source user id.  Required when transferring from a
    /// sub-account to a master account.
    pub fn set_from_user_id(self, id: &str) -> (request: Self)
        ensures
            request@ == (TransferFields { from_user_id: Some(id@), ..self@ }),
    {
        let mut request = self;
        request.from_user_id = Some(String::from_str(id));
        request
    }

    /// Sets the destination user id.  Required when transferring to a
    /// sub-account from a master account.
    pub fn set_to_user_id(self, id: &str) -> (request: Self)
        ensures
            request@ == (TransferFields { to_user_id: Some(id@), ..self@ }),
    {
        let mut request = self;
        request.to_user_id = Some(String::from_str(id));
        request
    }

    /// Checks that each isolated margin account comes with its trading pair.
    /// The source is checked first: the error names `Sender` when the source
    /// lacks its tag, `Receiver` when only the destination does.
    pub fn validate(&self) -> (checked: KucoinResults<()>)
        ensures
            match missing_tag_side(self@) {
                Some(side) => is_missing_tag_error(checked, side),
                None => checked is Ok,
            },
    {
        if self.from_account_tag.is_none() && account_is_isolated(&self.from_account_type) {
            return Err(KucoinErrors::MissingIsolatedTag(String::from_str("Sender")));
        }
        if self.to_account_tag.is_none() && account_is_isolated(&self.to_account_type) {
            return Err(KucoinErrors::MissingIsolatedTag(String::from_str("Receiver")));
        }
        Ok(())
    }

    /// The path that a transfer is posted to.
    pub fn endpoint() -> (path: String)
        ensures
            path@ == "/api/v3/accounts/universal-transfer"@,
    {
        String::from_str("/api/v3/accounts/universal-transfer")
    }
}

/// The transfer endpoints of one client.
pub struct TransferHandler<'a> {
    /// The client whose credentials sign the requests.
    pub client: &'a KuCoinClient,
}

impl<'a> TransferHandler<'a> {
    /// The signed `POST` request of a universal transfer; `payload` is the
    /// serialized `transfer`.
    ///
    /// The request is validated first: a transfer that lacks a tag is
    /// answered with the validation error and nothing is signed.
    pub fn transfer_request(
        &self,
        transfer: &TransferRequest,
        payload: &str,
    ) -> (request: KucoinResults<SignedRequest>)
        ensures
            match missing_tag_side(transfer@) {
                Some(side) => is_missing_tag_error(request, side),
                None => self.client.signed_now(
                    request,
                    "POST"@,
                    "/api/v3/accounts/universal-transfer"@,
                    payload@,
                ),
            },
    {
        match transfer.validate() {
            Err(error) => Err(error),
            Ok(_) => {
                let endpoint = TransferRequest::endpoint();
                proof {
                    reveal_strlit("POST");
                    lemma_upper_case_word_is_method("POST"@);
                }
                self.client.sign_request("POST", payload, endpoint.as_str())
            },
        }
    }
}

} // verus!
