//! The errors a call can end with.
use vstd::prelude::*;
use vstd::std_specs::convert::FromSpecImpl;

verus! {

/// Makes `serde_json::Error` known, so that the error type can carry it.
/// Nothing is known of what it holds.
#[verifier::external_type_specification]
#[verifier::external_body]
pub struct ExJsonError(serde_json::Error);

/// Makes `reqwest::Error` known, so that the error type can carry it.
/// Nothing is known of what it holds.
#[verifier::external_type_specification]
#[verifier::external_body]
pub struct ExReqwestError(reqwest::Error);

/// Defines error types.
#[derive(Debug)]
pub enum KucoinErrors {
    /// Contents do not match the structure expected.
    JSONError(serde_json::Error),
    /// An isolated-margin account was named without its trading pair; holds
    /// the side of the transfer that lacks it.
    MissingIsolatedTag(String),
    /// The transport failed before a response arrived.
    ReqwestError(reqwest::Error),
    /// The exchange answered with a client or server error status.
    HttpStatus { status: u16, body: String },
    /// A header would hold a byte that no header value may hold.
    InvalidHeaderValue,
    /// The system clock is set before the Unix epoch, so no timestamp can be
    /// given.
    ClockBeforeEpoch,
}

/// Alias type for results with the error handler.
pub type KucoinResults<T> = Result<T, KucoinErrors>;

impl From<serde_json::Error> for KucoinErrors {
    fn from(error: serde_json::Error) -> (converted: KucoinErrors) {
        KucoinErrors::JSONError(error)
    }
}

impl FromSpecImpl<serde_json::Error> for KucoinErrors {
    open spec fn obeys_from_spec() -> bool {
        true
    }

    open spec fn from_spec(error: serde_json::Error) -> KucoinErrors {
        KucoinErrors::JSONError(error)
    }
}

impl From<reqwest::Error> for KucoinErrors {
    fn from(error: reqwest::Error) -> (converted: KucoinErrors) {
        KucoinErrors::ReqwestError(error)
    }
}

impl FromSpecImpl<reqwest::Error> for KucoinErrors {
    open spec fn obeys_from_spec() -> bool {
        true
    }

    open spec fn from_spec(error: reqwest::Error) -> KucoinErrors {
        KucoinErrors::ReqwestError(error)
    }
}

/// The text of the validation error for the side `side` of a transfer.
pub open spec fn missing_tag_message(side: Seq<char>) -> Seq<char> {
    "Account tag is required for "@ + side + " ISOLATED account"@
}

/// The text of the error for the status `status`.
pub open spec fn http_status_message(status: u16, body: Seq<char>) -> Seq<char> {
    "HTTP-STATUS-ERROR: "@ + crate::utils::text::decimal_digits(status as nat) + " "@ + body
}

/// Renders a `serde_json::Error` with its `Display` impl.  Nothing is
/// assumed of the text.
#[verifier::external_body]
fn json_error_text(error: &serde_json::Error) -> String {
    format!("{}", error)
}

/// Renders a `reqwest::Error` with its `Display` impl.  Nothing is assumed
/// of the text.
#[verifier::external_body]
fn reqwest_error_text(error: &reqwest::Error) -> String {
    format!("{}", error)
}

impl KucoinErrors {
    /// The message of the error, as it is shown to a user.
    pub fn message(&self) -> (text: String)
        ensures
            match *self {
                KucoinErrors::JSONError(_) => "SERDE-JSON-ERROR: "@.is_prefix_of(text@),
                KucoinErrors::MissingIsolatedTag(side) => text@ == missing_tag_message(side@),
                KucoinErrors::ReqwestError(_) => "REQWEST-ERROR: "@.is_prefix_of(text@),
                KucoinErrors::HttpStatus { status, body } => text@ == http_status_message(
                    status,
                    body@,
                ),
                KucoinErrors::InvalidHeaderValue => text@ == "failed to parse header value"@,
                KucoinErrors::ClockBeforeEpoch => text@ == "Clock may have gone backwards"@,
            },
    {
        match self {
            KucoinErrors::JSONError(error) => {
                let text = String::from_str("SERDE-JSON-ERROR: ").concat(
                    json_error_text(error).as_str(),
                );
                assert("SERDE-JSON-ERROR: "@.is_prefix_of(text@)) by {
                    assert(text@.subrange(0, "SERDE-JSON-ERROR: "@.len() as int)
                        =~= "SERDE-JSON-ERROR: "@);
                }
                text
            },
            KucoinErrors::MissingIsolatedTag(side) => String::from_str(
                "Account tag is required for ",
            ).concat(side.as_str()).concat(" ISOLATED account"),
            KucoinErrors::ReqwestError(error) => {
                let text = String::from_str("REQWEST-ERROR: ").concat(
                    reqwest_error_text(error).as_str(),
                );
                assert("REQWEST-ERROR: "@.is_prefix_of(text@)) by {
                    assert(text@.subrange(0, "REQWEST-ERROR: "@.len() as int)
                        =~= "REQWEST-ERROR: "@);
                }
                text
            },
            KucoinErrors::HttpStatus { status, body } => String::from_str(
                "HTTP-STATUS-ERROR: ",
            ).concat(crate::utils::text::decimal_string(*status as u128).as_str()).concat(
                " ",
            ).concat(body.as_str()),
            KucoinErrors::InvalidHeaderValue => String::from_str("failed to parse header value"),
            KucoinErrors::ClockBeforeEpoch => String::from_str("Clock may have gone backwards"),
        }
    }
}

} // verus!
