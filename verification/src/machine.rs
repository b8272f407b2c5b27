//! The authentication state machine for one account's session.
//!
//! One machine owns one account's credentials and one cookie jar, and moves
//! through `Unauthenticated -> PendingVerification -> Authenticated`, or to
//! `Failed(reason)`. The two terminal states are never left: a fresh login
//! requires a fresh machine. The machine takes the transport's answers as
//! plain values and decides every transition; issuing the requests is the
//! caller's business.

use vstd::prelude::*;
use crate::engine::{Account, Website, login_params, url_resolve};
use crate::errors::EngineError;
use crate::jar::{CookieJar, jar_capture, jar_render};
use crate::text::{contains_seq, str_contains};

verus! {

/// Where one session stands. `Authenticated` is terminal success and
/// `Failed` terminal failure.
#[derive(Clone, Copy, Debug, PartialEq, Eq, Structural)]
pub enum SessionState {
    Unauthenticated,
    PendingVerification,
    Authenticated,
    Failed(EngineError),
}

/// An HTTP response reduced to the plain values the engine reads.
pub struct HttpResponse {
    pub status: u16,
    pub headers: Vec<(String, String)>,
    pub body: String,
}

/// What one network call came back with: a response, or a transport failure
/// (connection or timeout trouble) described by its error text.
pub enum TransportOutcome {
    Response(HttpResponse),
    TransportFailure(String),
}

/// The literal marker whose presence in the verification body confirms that
/// the target website considers the session logged in.
pub open spec fn membership_marker() -> Seq<char> {
    "<div id=\"member\">"@
}

/// The login response status classes the machine trusts: anything below the
/// client- and server-error classes counts as accepted, since the login
/// body itself is not a reliable signal.
pub open spec fn login_status_accepted(status: u16) -> bool {
    200 <= status < 400
}

/// The verification response must come back in the success class.
pub open spec fn verify_status_accepted(status: u16) -> bool {
    200 <= status < 300
}

/// One account's session: credentials, the website, the cookie jar, and the
/// current state.
pub struct AuthSessionMachine {
    pub account: Account,
    pub website: Website,
    pub jar: CookieJar,
    pub state: SessionState,
}

impl AuthSessionMachine {
    /// A fresh machine: unauthenticated, with an empty jar of its own.
    pub fn new(account: Account, website: Website) -> (m: AuthSessionMachine)
        ensures
            m.account == account,
            m.website == website,
            m.jar@ == Seq::<(Seq<char>, Seq<char>)>::empty(),
            m.jar.wf(),
            m.state == SessionState::Unauthenticated,
    {
        AuthSessionMachine { account, website, jar: CookieJar::new(), state: SessionState::Unauthenticated }
    }

    /// The URL the login form is posted to.
    pub fn login_url(&self) -> (r: Result<String, EngineError>)
        ensures
            r is Ok <==> url_resolve(self.website.host@, self.website.login_endpoint_path@)
                is Some,
            r is Ok ==> r.unwrap()@ == url_resolve(
                self.website.host@,
                self.website.login_endpoint_path@,
            ).unwrap(),
            r is Err ==> r.unwrap_err() == EngineError::ConfigurationError,
    {
        self.website.resolve(self.website.login_endpoint_path.as_str())
    }

    /// The URL the verification request reads.
    pub fn verify_url(&self) -> (r: Result<String, EngineError>)
        ensures
            r is Ok <==> url_resolve(self.website.host@, self.website.index_endpoint_path@)
                is Some,
            r is Ok ==> r.unwrap()@ == url_resolve(
                self.website.host@,
                self.website.index_endpoint_path@,
            ).unwrap(),
            r is Err ==> r.unwrap_err() == EngineError::ConfigurationError,
    {
        self.website.resolve(self.website.index_endpoint_path.as_str())
    }

    /// The form body of the login request: the account's credential fields
    /// plus the submit marker.
    pub fn login_form(&self) -> (form: Vec<(String, String)>)
        ensures
            form.deep_view() == login_params(self.account.email@, self.account.password@).push(
                ("login"@, "Connexion"@),
            ),
    {
        let mut form = self.account.get_param_map();
        form.push(("login".to_owned(), "Connexion".to_owned()));
        proof {
            assert(form.deep_view() =~= login_params(
                self.account.email@,
                self.account.password@,
            ).push(("login"@, "Connexion"@)));
        }
        form
    }

    /// The `Cookie` header to attach to requests of this session.
    pub fn cookie_header(&self) -> (r: String)
        ensures
            r@ == jar_render(self.jar@),
    {
        self.jar.render()
    }

    /// Classifies the login answer. An accepted status class captures the
    /// response's cookies and moves to `PendingVerification`; a failing
    /// class, or a transport failure, is terminal `AuthenticationError` and
    /// leaves the jar untouched. Only the status class is trusted here: real
    /// confirmation is deferred to verification.
    pub fn on_login(&mut self, outcome: &TransportOutcome)
        requires
            old(self).state == SessionState::Unauthenticated,
            old(self).jar.wf(),
        ensures
            final(self).account == old(self).account,
            final(self).website == old(self).website,
            final(self).jar.wf(),
            match outcome {
                TransportOutcome::Response(resp) => {
                    if login_status_accepted(resp.status) {
                        final(self).state == SessionState::PendingVerification && final(self).jar@
                            == jar_capture(old(self).jar@, resp.headers.deep_view())
                    } else {
                        final(self).state == SessionState::Failed(EngineError::AuthenticationError)
                            && final(self).jar@ == old(self).jar@
                    }
                },
                TransportOutcome::TransportFailure(_) => final(self).state == SessionState::Failed(
                    EngineError::AuthenticationError,
                ) && final(self).jar@ == old(self).jar@,
            },
    {
        match outcome {
            TransportOutcome::Response(resp) => {
                if 200 <= resp.status && resp.status < 400 {
                    self.jar.capture(&resp.headers);
                    self.state = SessionState::PendingVerification;
                } else {
                    self.state = SessionState::Failed(EngineError::AuthenticationError);
                }
            },
            TransportOutcome::TransportFailure(_) => {
                self.state = SessionState::Failed(EngineError::AuthenticationError);
            },
        }
    }

    /// Classifies the verification answer. Only a success-class response
    /// whose body holds the membership marker confirms the session; anything
    /// else — marker absent, failing status, transport failure — is terminal
    /// `ProtocolError`, since the session cannot be confirmed.
    pub fn on_verify(&mut self, outcome: &TransportOutcome)
        requires
            old(self).state == SessionState::PendingVerification,
        ensures
            final(self).account == old(self).account,
            final(self).website == old(self).website,
            final(self).jar == old(self).jar,
            match outcome {
                TransportOutcome::Response(resp) => final(self).state == (
                if verify_status_accepted(resp.status) && contains_seq(
                    resp.body@,
                    membership_marker(),
                ) {
                    SessionState::Authenticated
                } else {
                    SessionState::Failed(EngineError::ProtocolError)
                }),
                TransportOutcome::TransportFailure(_) => final(self).state == SessionState::Failed(
                    EngineError::ProtocolError,
                ),
            },
    {
        match outcome {
            TransportOutcome::Response(resp) => {
                let marker = "<div id=\"member\">";
                if 200 <= resp.status && resp.status < 300 && str_contains(
                    resp.body.as_str(),
                    marker,
                ) {
                    self.state = SessionState::Authenticated;
                } else {
                    self.state = SessionState::Failed(EngineError::ProtocolError);
                }
            },
            TransportOutcome::TransportFailure(_) => {
                self.state = SessionState::Failed(EngineError::ProtocolError);
            },
        }
    }
}

} // verus!
