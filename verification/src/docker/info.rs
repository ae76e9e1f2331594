//! What the daemon says about itself.

use super::errors::DockerApiError;
use super::is_exchange;
use super::Client;
use super::FixedAnswer;
use super::Method;
use super::Response;
use vstd::prelude::*;

verus! {

/// What an answer to the question for the daemon's description comes to:
/// the body of whatever response came, and for a failure its message.
pub open spec fn is_info(reply: Result<Response, DockerApiError>, r: Result<String, String>) -> bool {
    match reply {
        Ok(res) => r == Ok::<String, String>(res.body),
        Err(e) => r matches Err(text) && text@ == e.message_text(),
    }
}

/// A transport that can also be asked for the daemon's own description.
pub trait Info: Client {
    /// The daemon's description of itself, as the JSON text it sends.
    fn get_info(&self) -> (r: Result<String, String>)
        ensures
            exists|reply: Result<Response, DockerApiError>| #[trigger]
                is_exchange(self, "/info"@, Method::GET, None, reply) && is_info(reply, r),
    {
        let reply = self.get_response_from_api("/info", Method::GET, None, None);
        let r = match reply {
            Ok(res) => Ok(res.body),
            Err(e) => Err(e.message()),
        };
        assert(is_exchange(self, "/info"@, Method::GET, None, reply) && is_info(reply, r));
        r
    }
}

impl Info for FixedAnswer {

}

} // verus!
