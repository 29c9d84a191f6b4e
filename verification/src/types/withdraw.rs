//! Withdrawals.
use vstd::prelude::*;

verus! {

/// A withdrawal.
#[derive(Debug, Clone)]
pub struct WithdrawRequest {
    /// Withdrawal amount, a positive number which is a multiple of the amount
    /// precision
    pub amount: String,
    /// The chainId of currency.  For a currency with multiple chains it is
    /// recommended to name the chain instead of using the default one.
    pub chain: Option<String>,
    /// currency
    pub currency: String,
    /// Withdrawal fee deduction type: INTERNAL, EXTERNAL, or not specified.
    ///
    /// INTERNAL deducts the transaction fees from the withdrawal amount,
    /// EXTERNAL from the main account.  Without a type the fees are taken
    /// from the main account when its balance suffices and from the
    /// withdrawal amount otherwise.
    pub fee_deduct_type: Option<String>,
    /// Internal withdrawal or not. Default: false
    pub is_inner: Option<bool>,
    /// Address remark (memo or tag); empty if there is none.
    pub memo: Option<String>,
    /// Remark
    pub remark: Option<String>,
    /// Withdrawal address
    pub to_address: String,
    /// Withdrawal type: ADDRESS (withdrawal address), UID, MAIL (email) or
    /// PHONE (mobile phone number).
    pub withdraw_type: WithdrawType,
}

/// What a withdrawal request holds, with texts as sequences.
pub struct WithdrawFields {
    pub amount: Seq<char>,
    pub chain: Option<Seq<char>>,
    pub currency: Seq<char>,
    pub fee_deduct_type: Option<Seq<char>>,
    pub is_inner: Option<bool>,
    pub memo: Option<Seq<char>>,
    pub remark: Option<Seq<char>>,
    pub to_address: Seq<char>,
    pub withdraw_type: WithdrawType,
}

impl View for WithdrawRequest {
    type V = WithdrawFields;

    open spec fn view(&self) -> WithdrawFields {
        WithdrawFields {
            amount: self.amount@,
            chain: self.chain.deep_view(),
            currency: self.currency@,
            fee_deduct_type: self.fee_deduct_type.deep_view(),
            is_inner: self.is_inner,
            memo: self.memo.deep_view(),
            remark: self.remark.deep_view(),
            to_address: self.to_address@,
            withdraw_type: self.withdraw_type,
        }
    }
}

/// Withdrawal type: ADDRESS (withdrawal address), UID, MAIL (email), PHONE
/// (mobile phone number).  Withdrawals by uid, mail or phone are rate
/// limited: 3 times in 10 seconds, 50 times in 24 hours.
#[derive(Debug, Clone, Copy, PartialEq, Eq, Structural)]
pub enum WithdrawType {
    Address,
    Mail,
    Phone,
    Uid,
}

#[derive(Debug, Clone)]
pub struct WithdrawResponse {
    /// Withdrawal id, a unique ID for a withdrawal
    pub withdrawal_id: String,
}

} // verus!
