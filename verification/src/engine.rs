//! Static engine configuration: the account payload, the website descriptor
//! with its URL resolution, and the minimal behaviour a bot engine offers.

use vstd::prelude::*;
use crate::errors::EngineError;

verus! {

/// The URL that joining `path` against the absolute base `host` yields, or
/// nothing where parsing or joining fails. Standard URL-join semantics take
/// pages to state, but the result is a deterministic function of the two
/// strings alone, so it only gets a name here; `resolve_raw` ties it to the
/// outside implementation.
pub uninterp spec fn url_resolve(host: Seq<char>, path: Seq<char>) -> Option<Seq<char>>;

/// Relies on `url::Url::parse` and `url::Url::join`: parsing an absolute URL
/// and joining a relative path onto it are deterministic in the two input
/// strings, succeed together exactly when the name says so, and serialize
/// back with `url::Url::as_str`.
#[verifier::external_body]
fn resolve_raw(host: &str, path: &str) -> (r: Option<String>)
    ensures
        r is Some <==> url_resolve(host@, path@) is Some,
        r is Some ==> r.unwrap()@ == url_resolve(host@, path@).unwrap(),
{
    match url::Url::parse(host).and_then(|base| base.join(path)) {
        Ok(joined) => Some(joined.as_str().to_owned()),
        Err(_) => None,
    }
}

/// An account's login payload.
#[derive(Debug)]
pub struct Account {
    pub email: String,
    pub password: String,
}

/// The form fields that carry the credentials of an account.
pub open spec fn login_params(email: Seq<char>, password: Seq<char>) -> Seq<
    (Seq<char>, Seq<char>),
> {
    seq![("user_name"@, email), ("user_password"@, password)]
}

impl Account {
    pub fn new(email: String, password: String) -> (a: Account)
        ensures
            a.email@ == email@,
            a.password@ == password@,
    {
        Account { email, password }
    }

    /// The login request payload as form parameters, in order.
    pub fn get_param_map(&self) -> (m: Vec<(String, String)>)
        ensures
            m.deep_view() == login_params(self.email@, self.password@),
    {
        let mut m: Vec<(String, String)> = Vec::new();
        m.push(("user_name".to_owned(), self.email.clone()));
        m.push(("user_password".to_owned(), self.password.clone()));
        proof {
            assert(m.deep_view() =~= login_params(self.email@, self.password@));
        }
        m
    }
}

/// Static per-target configuration: base host plus the relative paths of the
/// login, verification and action endpoints.
pub struct Website {
    pub name: String,
    pub host: String,
    pub login_endpoint_path: String,
    pub vote_endpoint_path: String,
    pub index_endpoint_path: String,
}

impl Website {
    pub fn new(
        name: String,
        host: String,
        login_endpoint_path: String,
        vote_endpoint_path: String,
        index_endpoint_path: String,
    ) -> (w: Website)
        ensures
            w.name@ == name@,
            w.host@ == host@,
            w.login_endpoint_path@ == login_endpoint_path@,
            w.vote_endpoint_path@ == vote_endpoint_path@,
            w.index_endpoint_path@ == index_endpoint_path@,
    {
        Website { name, host, login_endpoint_path, vote_endpoint_path, index_endpoint_path }
    }

    /// The one concrete target this crate ships a descriptor for.
    pub fn amakna() -> (w: Website)
        ensures
            w.name@ == "Amakna"@,
            w.host@ == "https://ganymede.ws"@,
            w.login_endpoint_path@ == "connected"@,
            w.vote_endpoint_path@ == "vote"@,
            w.index_endpoint_path@ == "index"@,
    {
        Website {
            name: "Amakna".to_owned(),
            host: "https://ganymede.ws".to_owned(),
            login_endpoint_path: "connected".to_owned(),
            vote_endpoint_path: "vote".to_owned(),
            index_endpoint_path: "index".to_owned(),
        }
    }

    /// Joins `path` onto the descriptor's host. Fails with
    /// `ConfigurationError` exactly when the host is not a valid absolute URL
    /// or joining fails; such a failure is fatal for the whole session, since
    /// it means the descriptor itself is wrong.
    pub fn resolve(&self, path: &str) -> (r: Result<String, EngineError>)
        ensures
            r is Ok <==> url_resolve(self.host@, path@) is Some,
            r is Ok ==> r.unwrap()@ == url_resolve(self.host@, path@).unwrap(),
            r is Err ==> r.unwrap_err() == EngineError::ConfigurationError,
    {
        match resolve_raw(self.host.as_str(), path) {
            Some(u) => Ok(u),
            None => Err(EngineError::ConfigurationError),
        }
    }
}

/// Resolution is deterministic: the resolved URL is a function of the host
/// and the path alone, so two resolutions of the same inputs agree.
pub proof fn lemma_resolve_deterministic(
    host: Seq<char>,
    path: Seq<char>,
    r1: Option<Seq<char>>,
    r2: Option<Seq<char>>,
)
    requires
        r1 == url_resolve(host, path),
        r2 == url_resolve(host, path),
    ensures
        r1 == r2,
{
}

/// Minimal behaviours of a bot engine.
pub trait EngineExecutor {
    /// Drives one full session: login, verification, then the action.
    fn run(&mut self) -> Result<bool, String>;

    /// The static content describing the engine's target.
    fn get_website() -> Website;
}

/// The kinds of captcha that may protect an action.
#[allow(non_camel_case_types)]
#[derive(Clone, Copy, Debug, PartialEq, Eq, Structural)]
pub enum Captcha {
    RE_CAPTCHA,
    RE_CAPTCHA_V2,
    NONE,
}

/// Which captcha protects each of the two main actions.
pub struct ActionsProtection {
    pub login: Captcha,
    pub vote: Captcha,
}

impl Default for ActionsProtection {
    /// By default neither action is protected.
    fn default() -> (d: ActionsProtection)
        ensures
            d.login == Captcha::NONE,
            d.vote == Captcha::NONE,
    {
        ActionsProtection { login: Captcha::NONE, vote: Captcha::NONE }
    }
}

} // verus!
