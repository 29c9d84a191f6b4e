//! Sub-accounts: the request for an API key and what the API reports of them.
use vstd::prelude::*;

verus! {

/// The request that creates an API key for a sub-account.
#[derive(Debug, Clone)]
pub struct SubAccRequest {
    /// API expiration time
    pub expire: Option<Expire>,
    /// IP whitelist (up to 20 IPs, separated by a halfwidth comma)
    pub ip_whitelist: Option<String>,
    /// Password (must contain 7-32 characters and no spaces)
    pub passphrase: String,
    /// Permissions: only General, Spot, Futures, Margin, Unified and
    /// InnerTransfer (Flex Transfer) can be set
    pub permission: Option<String>,
    /// Remarks (1-24 characters)
    pub remark: String,
    /// Sub-account name, the name the API key is created for.
    pub sub_name: String,
}

/// What a sub-account request holds, with texts as sequences.
pub struct SubAccFields {
    pub expire: Option<Expire>,
    pub ip_whitelist: Option<Seq<char>>,
    pub passphrase: Seq<char>,
    pub permission: Option<Seq<char>>,
    pub remark: Seq<char>,
    pub sub_name: Seq<char>,
}

impl View for SubAccRequest {
    type V = SubAccFields;

    open spec fn view(&self) -> SubAccFields {
        SubAccFields {
            expire: self.expire,
            ip_whitelist: self.ip_whitelist.deep_view(),
            passphrase: self.passphrase@,
            permission: self.permission.deep_view(),
            remark: self.remark@,
            sub_name: self.sub_name@,
        }
    }
}

/// API expiration time
#[derive(Debug, Clone, Copy, PartialEq, Eq, Structural)]
pub enum Expire {
    NeverExpire,
    T180day,
    T30day,
    T360day,
    T90day,
}

#[derive(Debug, Clone)]
pub struct SubAccData {
    /// API Key
    pub api_key: String,
    /// API Secret Key
    pub api_secret: String,
    /// API Version
    pub api_version: i64,
    /// Time of event
    pub created_at: i64,
    /// IP whitelist
    pub ip_whitelist: Option<String>,
    /// Password
    pub passphrase: String,
    /// Permissions
    pub permission: String,
    /// Remarks
    pub remark: String,
    /// Sub-account name
    pub sub_name: String,
}

#[derive(Debug, Clone)]
pub struct SubAccListData {
    /// Current request page
    pub current_page: i64,
    pub items: Vec<SubAccItem>,
    /// Number of results per request. Minimum is 1, maximum is 100
    pub page_size: i64,
    /// Total number of messages
    pub total_num: i64,
    /// Total number of pages
    pub total_page: i64,
}

#[derive(Debug, Clone)]
pub struct SubAccItem {
    /// Sub-account Permission
    pub access: String,
    /// Time of event
    pub created_at: i64,
    pub hosted_status: String,
    /// Sub-account active permissions: without the corresponding permission,
    /// log in to the sub-account and activate it on the corresponding web page.
    pub opened_trade_types: Vec<String>,
    /// Remarks
    pub remarks: String,
    /// Sub-account; 2:Enable, 3:Frozen
    pub status: i64,
    /// Sub-account name
    pub sub_name: String,
    /// Sub-account Permissions
    pub trade_types: Vec<String>,
    /// Sub-account type
    pub item_type: i64,
    /// Sub-account UID
    pub uid: i64,
    /// Sub-account User ID
    pub user_id: String,
}

#[derive(Debug, Clone)]
pub struct SubAccBalance {
    /// Funding Account
    pub main_accounts: Vec<MainAccount>,
    /// Margin Account
    pub margin_accounts: Vec<MarginAccount>,
    /// The username of a sub-user.
    pub sub_name: String,
    /// The user ID of a sub-user.
    pub sub_user_id: String,
    /// Spot Account
    pub trade_accounts: Vec<TradeAccount>,
    /// This param is deprecated and only valid for some old users
    pub trade_hf_accounts: Vec<String>,
}

#[derive(Debug, Clone)]
pub struct MainAccount {
    /// Funds available to withdraw or trade.
    pub available: Option<String>,
    /// Total funds in an account.
    pub balance: Option<String>,
    /// The base currency amount.
    pub base_amount: Option<String>,
    /// Calculated on this currency.
    pub base_currency: Option<String>,
    /// The base currency price.
    pub base_currency_price: Option<String>,
    /// Currency
    pub currency: Option<String>,
    /// Funds on hold (not available for use).
    pub holds: Option<String>,
    pub tag: Option<String>,
}

#[derive(Debug, Clone)]
pub struct MarginAccount {
    /// Funds available to withdraw or trade.
    pub available: Option<String>,
    /// Total funds in an account.
    pub balance: Option<String>,
    /// The base currency amount.
    pub base_amount: Option<String>,
    /// Calculated on this currency.
    pub base_currency: Option<String>,
    /// The base currency price.
    pub base_currency_price: Option<String>,
    /// Currency
    pub currency: Option<String>,
    /// Funds on hold (not available for use).
    pub holds: Option<String>,
    pub tag: Option<String>,
}

#[derive(Debug, Clone)]
pub struct TradeAccount {
    /// Funds available to withdraw or trade.
    pub available: Option<String>,
    /// Total funds in an account.
    pub balance: Option<String>,
    /// The base currency amount.
    pub base_amount: Option<String>,
    /// Calculated on this currency.
    pub base_currency: Option<String>,
    /// The base currency price.
    pub base_currency_price: Option<String>,
    /// Currency
    pub currency: Option<String>,
    /// Funds on hold (not available for use).
    pub holds: Option<String>,
    pub tag: Option<String>,
}

} // verus!
