//! The request-building side of the transport client: the immutable
//! project identifier and credential, the per-project endpoint, and the
//! authorization header value.  The client holds no mutable state, so any
//! number of calls may be prepared and classified from one instance
//! concurrently; the HTTP exchange itself happens outside this crate.

use vstd::prelude::*;
use vstd::string::StringExecFns;

verus! {

/// The URL of the per-project send endpoint.
pub open spec fn endpoint_of(project_id: Seq<char>) -> Seq<char> {
    "https://fcm.googleapis.com/v1/projects/"@ + project_id + "/messages:send"@
}

/// The bearer-token authorization header value.
pub open spec fn bearer_of(token: Seq<char>) -> Seq<char> {
    "Bearer "@ + token
}

/// A client for the gateway: the project identifier and the bearer
/// credential.  Both are fixed at construction; every method takes the
/// client by shared reference.
pub struct Client {
    pub project_id: String,
    pub token: String,
}

impl Client {
    /// A new client for the given project and credential.
    pub fn new(project_id: String, token: String) -> (r: Client)
        ensures
            r.project_id@ == project_id@,
            r.token@ == token@,
    {
        Client { project_id, token }
    }

    /// The URL of this project's send endpoint.
    pub fn endpoint_url(&self) -> (r: String)
        ensures
            r@ == endpoint_of(self.project_id@),
    {
        let mut url = String::from_str("https://fcm.googleapis.com/v1/projects/");
        url.append(self.project_id.as_str());
        url.append("/messages:send");
        url
    }

    /// The authorization header value carrying this client's credential.
    pub fn auth_header_value(&self) -> (r: String)
        ensures
            r@ == bearer_of(self.token@),
    {
        let mut value = String::from_str("Bearer ");
        value.append(self.token.as_str());
        value
    }
}

impl Default for Client {
    /// A client with an empty project identifier and credential.
    fn default() -> (r: Client)
        ensures
            r.project_id@ == Seq::<char>::empty(),
            r.token@ == Seq::<char>::empty(),
    {
        Client::new(String::new(), String::new())
    }
}

} // verus!
