//! Withdrawals.
use crate::client::rest::{lemma_upper_case_word_is_method, KuCoinClient, SignedRequest};
use crate::types::withdraw::{WithdrawFields, WithdrawRequest, WithdrawType};
use crate::utils::errors::KucoinResults;
use vstd::prelude::*;

verus! {

/// The withdrawal endpoints of one client.
pub struct WithdrawHandler<'a> {
    /// The client whose credentials sign the requests.
    pub client: &'a KuCoinClient,
}

impl WithdrawRequest {
    /// Creates a new withdrawal request; `amount` is the amount as its
    /// decimal text.
    pub fn new(
        currency: &str,
        to_address: &str,
        amount: &str,
        withdraw_type: WithdrawType,
    ) -> (request: Self)
        ensures
            request@ == (WithdrawFields {
                amount: amount@,
                chain: None,
                currency: currency@,
                fee_deduct_type: None,
                is_inner: None,
                memo: None,
                remark: None,
                to_address: to_address@,
                withdraw_type: withdraw_type,
            }),
    {
        WithdrawRequest {
            amount: String::from_str(amount),
            chain: None,
            currency: String::from_str(currency),
            fee_deduct_type: None,
            is_inner: None,
            memo: None,
            remark: None,
            to_address: String::from_str(to_address),
            withdraw_type,
        }
    }

    /// Sets the chain name (e.g., "ERC20").
    pub fn set_chain(self, chain: &str) -> (request: Self)
        ensures
            request@ == (WithdrawFields { chain: Some(chain@), ..self@ }),
    {
        let mut request = self;
        request.chain = Some(String::from_str(chain));
        request
    }

    /// Sets the address memo.
    pub fn set_memo(self, memo: &str) -> (request: Self)
        ensures
            request@ == (WithdrawFields { memo: Some(memo@), ..self@ }),
    {
        let mut request = self;
        request.memo = Some(String::from_str(memo));
        request
    }

    /// Marks the withdrawal as internal.
    pub fn set_isinner(self) -> (request: Self)
        ensures
            request@ == (WithdrawFields { is_inner: Some(true), ..self@ }),
    {
        let mut request = self;
        request.is_inner = Some(true);
        request
    }

    /// Sets a remark for the transaction.
    pub fn set_remark(self, rm: &str) -> (request: Self)
        ensures
            request@ == (WithdrawFields { remark: Some(rm@), ..self@ }),
    {
        let mut request = self;
        request.remark = Some(String::from_str(rm));
        request
    }

    /// Sets the withdrawal fee deduction type: INTERNAL or EXTERNAL.
    /// 
    /// INTERNAL deducts the transaction fees from the withdrawal amount,
    /// EXTERNAL from the main account.  Without a type the fees are taken from
    /// the main account when its balance suffices and from the withdrawal
    /// amount otherwise.
    pub fn set_fee_deduct_type(self, type_: &str) -> (request: Self)
        ensures
            request@ == (WithdrawFields { fee_deduct_type: Some(type_@), ..self@ }),
    {
        let mut request = self;
        request.fee_deduct_type = Some(String::from_str(type_));
        request
    }
}

impl<'a> WithdrawHandler<'a> {
    /// The signed `POST` request that executes a withdrawal; `payload` is
    /// the serialized `WithdrawRequest`.
    pub fn execute_request(&self, payload: &str) -> (request: KucoinResults<SignedRequest>)
        ensures
            self.client.signed_now(request, "POST"@, "/api/v3/withdrawals"@, payload@),
    {
        proof {
            reveal_strlit("POST");
            lemma_upper_case_word_is_method("POST"@);
        }
        self.client.sign_request("POST", payload, "/api/v3/withdrawals")
    }
}

} // verus!
