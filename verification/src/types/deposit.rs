//! Deposit history: the query and the records it returns.
use vstd::prelude::*;

verus! {

/// The filter of a deposit history query.  A field that is `None` leaves
/// its parameter out of the query.
#[derive(Debug)]
pub struct DepositHistoryRequest {
    pub currency: Option<String>,
    pub current_page: Option<i64>,
    pub end_at: Option<i64>,
    pub page_size: Option<i64>,
    pub start_at: Option<i64>,
    /// Without a status the API returns deposits of every status.
    pub status: Option<DepositStatus>,
}

/// What a deposit history query holds, with texts as sequences.
pub struct DepositHistoryFilter {
    pub currency: Option<Seq<char>>,
    pub current_page: Option<i64>,
    pub end_at: Option<i64>,
    pub page_size: Option<i64>,
    pub start_at: Option<i64>,
    pub status: Option<DepositStatus>,
}

impl View for DepositHistoryRequest {
    type V = DepositHistoryFilter;

    open spec fn view(&self) -> DepositHistoryFilter {
        DepositHistoryFilter {
            currency: self.currency.deep_view(),
            current_page: self.current_page,
            end_at: self.end_at,
            page_size: self.page_size,
            start_at: self.start_at,
            status: self.status,
        }
    }
}

#[derive(Debug, Clone)]
pub struct DepositList {
    /// current page
    pub current_page: i64,
    pub items: Vec<Deposit>,
    /// page size
    pub page_size: i64,
    /// total number
    pub total_num: i64,
    /// total pages
    pub total_page: i64,
}

#[derive(Debug, Clone)]
pub struct Deposit {
    /// Deposit address
    pub address: Option<String>,
    /// Deposit amount
    pub amount: Option<String>,
    /// Whether there is any debt. A quick rollback will cause the deposit to
    /// fail. If the deposit fails, the balance has to be repaid.
    pub arrears: Option<bool>,
    /// The chainName of currency
    pub chain: Option<String>,
    /// Database record creation time
    pub created_at: Option<i64>,
    /// Currency
    pub currency: Option<String>,
    /// Fees charged for deposit
    pub fee: Option<String>,
    /// Internal deposit or not
    pub is_inner: Option<bool>,
    /// Address remark. If there is no remark, it is empty.
    pub memo: Option<String>,
    /// remark
    pub remark: Option<String>,
    /// Status
    pub status: Option<DepositStatus>,
    /// Update time of the database record
    pub updated_at: Option<i64>,
    /// Wallet Txid
    pub wallet_tx_id: Option<String>,
}

/// Status. Available value: PROCESSING, SUCCESS, and FAILURE
#[derive(Debug, Clone, Copy, PartialEq, Eq, Structural)]
pub enum DepositStatus {
    Failure,
    Processing,
    Success,
    TrmMgtRejected,
    WaitTrmMgt,
}

impl DepositStatus {
    /// The name of the status in queries and responses.
    pub open spec fn wire_name(self) -> Seq<char> {
        match self {
            DepositStatus::Failure => "FAILURE"@,
            DepositStatus::Processing => "PROCESSING"@,
            DepositStatus::Success => "SUCCESS"@,
            DepositStatus::TrmMgtRejected => "TRM_MGT_REJECTED"@,
            DepositStatus::WaitTrmMgt => "WAIT_TRM_MGT"@,
        }
    }

    /// The name of the status in queries and responses.
    pub fn as_wire_name(&self) -> (name: String)
        ensures
            name@ == self.wire_name(),
    {
        match self {
            DepositStatus::Failure => String::from_str("FAILURE"),
            DepositStatus::Processing => String::from_str("PROCESSING"),
            DepositStatus::Success => String::from_str("SUCCESS"),
            DepositStatus::TrmMgtRejected => String::from_str("TRM_MGT_REJECTED"),
            DepositStatus::WaitTrmMgt => String::from_str("WAIT_TRM_MGT"),
        }
    }
}

} // verus!
