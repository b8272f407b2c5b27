//! The post-authentication action: building its request and classifying its
//! answer. One call issues exactly one request and is never retried here.

use vstd::prelude::*;
use vstd::string::StringExecFns;
use crate::engine::url_resolve;
use crate::errors::EngineError;
use crate::jar::jar_render;
use crate::machine::{AuthSessionMachine, SessionState, TransportOutcome};
use crate::text::{dec_rep, u16_to_dec_string};

verus! {

/// The fixed query string that identifies the action to the target website.
pub open spec fn action_query() -> Seq<char> {
    "?true=rpg"@
}

/// Everything the transport needs to issue the action request.
#[derive(Debug)]
pub struct ActionRequest {
    pub url: String,
    pub cookie: String,
}

/// What one action call came to.
pub enum ActionResult {
    Success,
    Failure(String),
}

impl AuthSessionMachine {
    /// Builds the action request for this session. In any state but
    /// `Authenticated` this is `PreconditionError` and no request is built;
    /// an unresolvable action URL is `ConfigurationError`. Otherwise the
    /// request carries the resolved action URL with the fixed query
    /// attached, and the jar rendered as the `Cookie` header.
    pub fn action_request(&self) -> (r: Result<ActionRequest, EngineError>)
        ensures
            self.state != SessionState::Authenticated ==> r is Err && r.unwrap_err()
                == EngineError::PreconditionError,
            self.state == SessionState::Authenticated ==> {
                if url_resolve(self.website.host@, self.website.vote_endpoint_path@) is Some {
                    &&& r is Ok
                    &&& r.unwrap().url@ == url_resolve(
                        self.website.host@,
                        self.website.vote_endpoint_path@,
                    ).unwrap() + action_query()
                    &&& r.unwrap().cookie@ == jar_render(self.jar@)
                } else {
                    r is Err && r.unwrap_err() == EngineError::ConfigurationError
                }
            },
    {
        match self.state {
            SessionState::Authenticated => {
                let base = match self.website.resolve(self.website.vote_endpoint_path.as_str()) {
                    Ok(b) => b,
                    Err(e) => {
                        return Err(e);
                    },
                };
                let url = base.concat("?true=rpg");
                Ok(ActionRequest { url, cookie: self.jar.render() })
            },
            _ => Err(EngineError::PreconditionError),
        }
    }
}

/// Classifies the action's answer: a success-class status is `Success`; any
/// other status is a failure carrying the status code in decimal; a
/// transport failure is a failure carrying the transport's error text. The
/// two failure kinds stay distinguishable through that text.
pub fn classify_action(outcome: &TransportOutcome) -> (r: ActionResult)
    ensures
        match outcome {
            TransportOutcome::Response(resp) => {
                if 200 <= resp.status < 300 {
                    r == ActionResult::Success
                } else {
                    match r {
                        ActionResult::Failure(t) => t@ == dec_rep(resp.status as nat),
                        _ => false,
                    }
                }
            },
            TransportOutcome::TransportFailure(e) => match r {
                ActionResult::Failure(t) => t@ == e@,
                _ => false,
            },
        },
{
    match outcome {
        TransportOutcome::Response(resp) => {
            if 200 <= resp.status && resp.status < 300 {
                ActionResult::Success
            } else {
                ActionResult::Failure(u16_to_dec_string(resp.status))
            }
        },
        TransportOutcome::TransportFailure(e) => ActionResult::Failure(e.clone()),
    }
}

} // verus!
