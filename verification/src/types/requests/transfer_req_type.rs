//! The request of a universal transfer.
use vstd::prelude::*;

verus! {

/// A transfer between accounts.
#[derive(Debug, Clone)]
pub struct TransferRequest {
    /// Transfer amount: a positive integer multiple of the currency precision.
    pub amount: String,
    /// Unique order ID created by users to identify their orders, e.g. UUID,
    /// with a maximum length of 128 bits
    pub client_oid: String,
    /// currency
    pub currency: String,
    /// Symbol: required when the account type is ISOLATED or ISOLATED_V2, for
    /// example: BTC-USDT
    pub from_account_tag: Option<String>,
    /// Account type: MAIN, TRADE, CONTRACT, MARGIN, ISOLATED, MARGIN_V2,
    /// ISOLATED_V2
    pub from_account_type: AccountType,
    /// Transfer out UserId: required when transferring from sub-account to
    /// master-account, optional for internal transfers.
    pub from_user_id: Option<String>,
    /// Symbol: required when the account type is ISOLATED or ISOLATED_V2, for
    /// example: BTC-USDT
    pub to_account_tag: Option<String>,
    /// Account type: MAIN, TRADE, CONTRACT, MARGIN, ISOLATED, MARGIN_V2,
    /// ISOLATED_V2
    pub to_account_type: AccountType,
    /// Transfer in UserId: required when transferring from master-account to
    /// sub-account, optional for internal transfers.
    pub to_user_id: Option<String>,
    /// Transfer type
    pub transfer_request_type: TransferType,
}

/// What a transfer request holds, with texts as sequences.
pub struct TransferFields {
    pub amount: Seq<char>,
    pub client_oid: Seq<char>,
    pub currency: Seq<char>,
    pub from_account_tag: Option<Seq<char>>,
    pub from_account_type: AccountType,
    pub from_user_id: Option<Seq<char>>,
    pub to_account_tag: Option<Seq<char>>,
    pub to_account_type: AccountType,
    pub to_user_id: Option<Seq<char>>,
    pub transfer_request_type: TransferType,
}

impl View for TransferRequest {
    type V = TransferFields;

    open spec fn view(&self) -> TransferFields {
        TransferFields {
            amount: self.amount@,
            client_oid: self.client_oid@,
            currency: self.currency@,
            from_account_tag: self.from_account_tag.deep_view(),
            from_account_type: self.from_account_type,
            from_user_id: self.from_user_id.deep_view(),
            to_account_tag: self.to_account_tag.deep_view(),
            to_account_type: self.to_account_type,
            to_user_id: self.to_user_id.deep_view(),
            transfer_request_type: self.transfer_request_type,
        }
    }
}

/// Account type: MAIN, TRADE, CONTRACT, MARGIN, ISOLATED, MARGIN_V2, ISOLATED_V2
#[derive(Debug, Clone, Copy, PartialEq, Eq, Structural)]
pub enum AccountType {
    Contract,
    Isolated,
    IsolatedV2,
    Main,
    Margin,
    MarginV2,
    Trade,
}

/// Transfer type
#[derive(Debug, Clone, Copy, PartialEq, Eq, Structural)]
pub enum TransferType {
    Internal,
    ParentToSub,
    SubToParent,
}

} // verus!
