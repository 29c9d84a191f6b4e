//! Sub-accounts.
use crate::client::rest::{lemma_upper_case_word_is_method, KuCoinClient, SignedRequest};
use crate::types::sup_account::{Expire, SubAccFields, SubAccRequest};
use crate::utils::errors::KucoinResults;
use vstd::prelude::*;

verus! {

/// The whitelist after `ip` is added to `list`: the first address stands
/// alone, each later one follows a comma.
pub open spec fn whitelist_with(list: Option<Seq<char>>, ip: Seq<char>) -> Seq<char> {
    match list {
        Some(ips) => ips + ","@ + ip,
        None => ip,
    }
}

impl SubAccRequest {
    /// Request to add a new sub-account API key.
    pub fn new(name: &str, remark: &str, passphrase: &str) -> (request: Self)
        ensures
            request@ == (SubAccFields {
                expire: None,
                ip_whitelist: None,
                passphrase: passphrase@,
                permission: None,
                remark: remark@,
                sub_name: name@,
            }),
    {
        SubAccRequest {
            expire: None,
            ip_whitelist: None,
            passphrase: String::from_str(passphrase),
            permission: None,
            remark: String::from_str(remark),
            sub_name: String::from_str(name),
        }
    }

    /// Sets the time after which the key expires.
    pub fn set_expire(self, day: Expire) -> (request: Self)
        ensures
            request@ == (SubAccFields { expire: Some(day), ..self@ }),
    {
        let mut request = self;
        request.expire = Some(day);
        request
    }

    /// Adds one IP to the whitelist.  The API accepts up to 20.
    pub fn add_ipwhitelist(self, ip: &str) -> (request: Self)
        ensures
            request@ == (SubAccFields {
                ip_whitelist: Some(whitelist_with(self@.ip_whitelist, ip@)),
                ..self@
            }),
    {
        let mut request = self;
        let list = match request.ip_whitelist {
            Some(ips) => ips.concat(",").concat(ip),
            None => String::from_str(ip),
        };
        request.ip_whitelist = Some(list);
        request
    }

    /// Sets the permissions, separated by commas.  Only General, Spot,
    /// Futures, Margin, Unified and InnerTransfer (Flex Transfer) can be set,
    /// as in `"General,Spot,Futures,Unified"`.
    pub fn set_permission(self, permission: &str) -> (request: Self)
        ensures
            request@ == (SubAccFields { permission: Some(permission@), ..self@ }),
    {
        let mut request = self;
        request.permission = Some(String::from_str(permission));
        request
    }
}

/// The sub-account endpoints of one client.
pub struct SubAccHander<'a> {
    /// The client whose credentials sign the requests.
    pub client: &'a KuCoinClient,
}

/// The path of the balance of the sub-account `user_id`.
pub open spec fn balance_endpoint(user_id: Seq<char>) -> Seq<char> {
    "/api/v1/sub-accounts/"@ + user_id
}

impl<'a> SubAccHander<'a> {
    /// The signed `POST` request that creates an API key for a sub-account;
    /// `payload` is the serialized `SubAccRequest`.
    pub fn add_api_request(&self, payload: &str) -> (request: KucoinResults<SignedRequest>)
        ensures
            self.client.signed_now(request, "POST"@, "/api/v1/sub/api-key"@, payload@),
    {
        proof {
            reveal_strlit("POST");
            lemma_upper_case_word_is_method("POST"@);
        }
        self.client.sign_request("POST", payload, "/api/v1/sub/api-key")
    }

    /// The signed `GET` request for the summary of every sub-account.
    pub fn fetchall_request(&self) -> (request: KucoinResults<SignedRequest>)
        ensures
            self.client.signed_now(request, "GET"@, "/api/v2/sub/user"@, ""@),
    {
        proof {
            reveal_strlit("GET");
            lemma_upper_case_word_is_method("GET"@);
        }
        self.client.sign_request("GET", "", "/api/v2/sub/user")
    }

    /// The signed `GET` request for the balance of the sub-account
    /// `user_id`.
    pub fn balance_request(&self, user_id: &str) -> (request: KucoinResults<SignedRequest>)
        ensures
            self.client.signed_now(request, "GET"@, balance_endpoint(user_id@), ""@),
    {
        let endpoint = String::from_str("/api/v1/sub-accounts/").concat(user_id);
        proof {
            reveal_strlit("GET");
            lemma_upper_case_word_is_method("GET"@);
        }
        self.client.sign_request("GET", "", endpoint.as_str())
    }
}

} // verus!
