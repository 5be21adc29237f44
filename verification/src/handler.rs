//! The session middleware configuration and the per-request lifecycle
//! decisions.
//!
//! The handler owns the immutable configuration (cookie attributes,
//! save-unchanged policy, signing key set). The per-request flow is a
//! sequence of decision functions: `verified_identifier` authenticates
//! the incoming cookie and fails open, `load_or_create` turns the
//! store's answer into the one session of the request, `refresh_expiry`
//! re-derives the expiry from the configured time-to-live,
//! `end_decision` picks destroy, persist or nothing once the handler
//! chain ran, and `build_cookie` signs a store token and assembles the
//! outbound cookie. The store itself and the clock are outside
//! collaborators: their answers come in as arguments.
use vstd::prelude::*;
use vstd::string::StringExecFns;

use crate::codec::{spec_sign, spec_verify, sign_value, verify_value, VerifyError};
use crate::cookie_out::{SameSitePolicy, SessionCookie};
use crate::keys::{ConfigError, SigningKeySet};
use crate::session::Session;

verus! {

/// Number of seconds in the default time-to-live of one day.
pub const DEFAULT_TTL_SECS: u64 = 86400;

/// What the middleware does once the handler chain has finished.
#[derive(Clone, Copy, Debug, PartialEq, Eq, Structural)]
pub enum EndAction {
    /// The chain was cancelled: no store call, no cookie write.
    Skipped,
    /// Delete the session from the store and clear the client cookie.
    Destroy,
    /// Persist the session; a returned token becomes the next cookie.
    Persist,
    /// Leave the store and the response's cookies untouched.
    Unchanged,
}

/// SessionHandler: the immutable per-middleware configuration.
pub struct SessionHandler {
    cookie_path: String,
    cookie_name: String,
    cookie_domain: Option<String>,
    session_ttl: Option<u64>,
    save_unchanged: bool,
    same_site_policy: SameSitePolicy,
    keys: SigningKeySet,
}

impl SessionHandler {
    pub closed spec fn wf(&self) -> bool {
        self.keys.wf()
    }

    pub closed spec fn spec_cookie_name(&self) -> Seq<char> {
        self.cookie_name@
    }

    pub closed spec fn spec_cookie_path(&self) -> Seq<char> {
        self.cookie_path@
    }

    pub closed spec fn spec_cookie_domain(&self) -> Option<Seq<char>> {
        match self.cookie_domain {
            Some(d) => Some(d@),
            None => None,
        }
    }

    pub closed spec fn spec_session_ttl(&self) -> Option<u64> {
        self.session_ttl
    }

    pub closed spec fn spec_save_unchanged(&self) -> bool {
        self.save_unchanged
    }

    pub closed spec fn spec_same_site(&self) -> SameSitePolicy {
        self.same_site_policy
    }

    /// The keys cookies are verified against, primary first.
    pub closed spec fn spec_keys(&self) -> Seq<Seq<u8>> {
        self.keys.key_seqs()
    }

    /// The key new cookies are signed under.
    pub closed spec fn spec_primary_key(&self) -> Seq<u8> {
        self.keys.primary_key()
    }

    /// Create new `HandlerBuilder`.
    pub fn builder(secret: &[u8]) -> (b: HandlerBuilder)
        ensures
            b.spec_secret() == secret@,
            b.spec_fallback_secrets() =~= Seq::<Seq<u8>>::empty(),
            b.spec_cookie_path() == "/"@,
            b.spec_cookie_name() == "salvo.sid"@,
            b.spec_cookie_domain() is None,
            b.spec_session_ttl() == Some(DEFAULT_TTL_SECS),
            b.spec_save_unchanged(),
            b.spec_same_site() == SameSitePolicy::Lax,
    {
        HandlerBuilder::new(secret)
    }

    pub fn cookie_name(&self) -> (r: &String)
        ensures
            r@ == self.spec_cookie_name(),
    {
        &self.cookie_name
    }

    pub fn cookie_path(&self) -> (r: &String)
        ensures
            r@ == self.spec_cookie_path(),
    {
        &self.cookie_path
    }

    pub fn cookie_domain(&self) -> (r: Option<&String>)
        ensures
            match r {
                Some(d) => self.spec_cookie_domain() == Some(d@),
                None => self.spec_cookie_domain() is None,
            },
    {
        self.cookie_domain.as_ref()
    }

    pub fn session_ttl(&self) -> (r: Option<u64>)
        ensures
            r == self.spec_session_ttl(),
    {
        self.session_ttl
    }

    pub fn save_unchanged(&self) -> (r: bool)
        ensures
            r == self.spec_save_unchanged(),
    {
        self.save_unchanged
    }

    pub fn same_site_policy(&self) -> (r: SameSitePolicy)
        ensures
            r == self.spec_same_site(),
    {
        self.same_site_policy
    }

    /// Verify a signed cookie value against every key of the set.
    pub fn verify_signature(&self, cookie_value: &[u8]) -> (r: Result<Vec<u8>, VerifyError>)
        requires
            self.wf(),
        ensures
            match r {
                Ok(v) => spec_verify(cookie_value@, self.spec_keys()) == Ok::<
                    Seq<u8>,
                    VerifyError,
                >(v@),
                Err(e) => spec_verify(cookie_value@, self.spec_keys()) == Err::<
                    Seq<u8>,
                    VerifyError,
                >(e),
            },
    {
        verify_value(cookie_value, &self.keys)
    }

    /// Sign a value under the primary key: the signed wire form that
    /// goes into the outbound cookie.
    pub fn sign_cookie(&self, value: &[u8]) -> (r: Vec<u8>)
        requires
            self.wf(),
        ensures
            r@ == spec_sign(self.spec_primary_key(), value@),
    {
        sign_value(self.keys.primary(), value)
    }

    /// The authenticated identifier of the incoming cookie, if any.
    /// Absence, a malformed value and a signature mismatch all come out
    /// as `None`: verification fails open to a fresh session.
    pub fn verified_identifier(&self, cookie_value: Option<&Vec<u8>>) -> (r: Option<Vec<u8>>)
        requires
            self.wf(),
        ensures
            match cookie_value {
                None => r is None,
                Some(c) => match r {
                    Some(v) => spec_verify(c@, self.spec_keys()) == Ok::<Seq<u8>, VerifyError>(
                        v@,
                    ),
                    None => spec_verify(c@, self.spec_keys()) is Err,
                },
            },
    {
        match cookie_value {
            None => None,
            Some(c) => match self.verify_signature(c.as_slice()) {
                Ok(v) => Some(v),
                Err(_) => None,
            },
        }
    }

    /// The one session of the request: the store's validated answer, or
    /// a fresh empty session under `fresh_id` when there was nothing to
    /// load or the loaded session has expired.
    pub fn load_or_create(&self, loaded: Option<Session>, fresh_id: Vec<u8>, now: u64) -> (s:
        Session)
        ensures
            match loaded {
                Some(l) => {
                    if l.spec_is_expired(now) {
                        s.spec_id() == fresh_id@ && (forall|k: Seq<char>| s.spec_get(k) is None)
                            && !s.spec_data_changed() && !s.spec_destroyed() && s.spec_expiry()
                            is None
                    } else {
                        s == l
                    }
                },
                None => {
                    s.spec_id() == fresh_id@ && (forall|k: Seq<char>| s.spec_get(k) is None)
                        && !s.spec_data_changed() && !s.spec_destroyed() && s.spec_expiry()
                        is None
                },
            },
    {
        match loaded {
            Some(l) => match l.validate(now) {
                Some(s) => s,
                None => Session::new(fresh_id),
            },
            None => Session::new(fresh_id),
        }
    }

    /// Re-derive the session expiry from the configured time-to-live,
    /// unconditionally, before the session is exposed to handlers.
    pub fn refresh_expiry(&self, session: &mut Session, now: u64)
        requires
            self.spec_session_ttl() is Some ==> now + self.spec_session_ttl().unwrap()
                <= u64::MAX,
        ensures
            final(session).spec_id() == old(session).spec_id(),
            forall|k: Seq<char>| final(session).spec_get(k) == old(session).spec_get(k),
            final(session).spec_data_changed() == old(session).spec_data_changed(),
            final(session).spec_destroyed() == old(session).spec_destroyed(),
            final(session).spec_expiry() == match self.spec_session_ttl() {
                Some(ttl) => Some((now + ttl) as u64),
                None => old(session).spec_expiry(),
            },
    {
        if let Some(ttl) = self.session_ttl {
            session.expire_in(now, ttl);
        }
    }

    /// What the end-decision is, as a predicate: destruction always wins
    /// over persistence; an unchanged session is persisted only under
    /// the save-unchanged policy; a cancelled chain skips everything.
    pub open spec fn spec_end_decision(&self, session: &Session, ceased: bool) -> EndAction {
        if ceased {
            EndAction::Skipped
        } else if session.spec_destroyed() {
            EndAction::Destroy
        } else if self.spec_save_unchanged() || session.spec_data_changed() {
            EndAction::Persist
        } else {
            EndAction::Unchanged
        }
    }

    /// Decide what happens once the handler chain has finished. A
    /// session both mutated and marked destroyed is destroyed, never
    /// persisted.
    pub fn end_decision(&self, session: &Session, ceased: bool) -> (r: EndAction)
        ensures
            r == self.spec_end_decision(session, ceased),
            session.spec_destroyed() && !ceased ==> r == EndAction::Destroy,
    {
        if ceased {
            EndAction::Skipped
        } else if session.is_destroyed() {
            EndAction::Destroy
        } else if self.save_unchanged || session.data_changed() {
            EndAction::Persist
        } else {
            EndAction::Unchanged
        }
    }

    /// Build the outbound cookie for a token the store handed back: the
    /// token is signed under the primary key, `HttpOnly` is always set,
    /// `Secure` follows the connection, and the expiry is `now + ttl`,
    /// recomputed fresh rather than copied from any previous cookie.
    pub fn build_cookie(&self, secure: bool, cookie_value: Vec<u8>, now: u64) -> (r:
        SessionCookie)
        requires
            self.wf(),
            self.spec_session_ttl() is Some ==> now + self.spec_session_ttl().unwrap()
                <= u64::MAX,
        ensures
            r.name@ == self.spec_cookie_name(),
            r.value@ == spec_sign(self.spec_primary_key(), cookie_value@),
            r.path@ == self.spec_cookie_path(),
            match (r.domain, self.spec_cookie_domain()) {
                (Some(d), Some(c)) => d@ == c,
                (None, None) => true,
                _ => false,
            },
            r.secure == secure,
            r.http_only,
            r.same_site == self.spec_same_site(),
            r.expires == match self.spec_session_ttl() {
                Some(ttl) => Some((now + ttl) as u64),
                None => None::<u64>,
            },
    {
        let signed = self.sign_cookie(cookie_value.as_slice());
        let expires = match self.session_ttl {
            Some(ttl) => Some(now + ttl),
            None => None,
        };
        let domain = match &self.cookie_domain {
            Some(d) => Some(d.clone()),
            None => None,
        };
        SessionCookie {
            name: self.cookie_name.clone(),
            value: signed,
            path: self.cookie_path.clone(),
            domain,
            secure,
            http_only: true,
            same_site: self.same_site_policy,
            expires,
        }
    }
}

/// HandlerBuilder: collects the configuration and derives the key set.
pub struct HandlerBuilder {
    cookie_path: String,
    cookie_name: String,
    cookie_domain: Option<String>,
    session_ttl: Option<u64>,
    save_unchanged: bool,
    same_site_policy: SameSitePolicy,
    secret: Vec<u8>,
    fallback_secrets: Vec<Vec<u8>>,
}

impl HandlerBuilder {
    pub closed spec fn spec_cookie_name(&self) -> Seq<char> {
        self.cookie_name@
    }

    pub closed spec fn spec_cookie_path(&self) -> Seq<char> {
        self.cookie_path@
    }

    pub closed spec fn spec_cookie_domain(&self) -> Option<Seq<char>> {
        match self.cookie_domain {
            Some(d) => Some(d@),
            None => None,
        }
    }

    pub closed spec fn spec_session_ttl(&self) -> Option<u64> {
        self.session_ttl
    }

    pub closed spec fn spec_save_unchanged(&self) -> bool {
        self.save_unchanged
    }

    pub closed spec fn spec_same_site(&self) -> SameSitePolicy {
        self.same_site_policy
    }

    pub closed spec fn spec_secret(&self) -> Seq<u8> {
        self.secret@
    }

    pub closed spec fn spec_fallback_secrets(&self) -> Seq<Seq<u8>> {
        self.fallback_secrets@.map_values(|s: Vec<u8>| s@)
    }

    /// Everything of the builder but the secrets, as one tuple, so that
    /// a setter can say in one clause that it changed nothing else.
    pub open spec fn spec_config(&self) -> (
        Seq<char>,
        Seq<char>,
        Option<Seq<char>>,
        Option<u64>,
        bool,
        SameSitePolicy,
    ) {
        (
            self.spec_cookie_name(),
            self.spec_cookie_path(),
            self.spec_cookie_domain(),
            self.spec_session_ttl(),
            self.spec_save_unchanged(),
            self.spec_same_site(),
        )
    }

    pub closed spec fn spec_secrets(&self) -> (Seq<u8>, Seq<Seq<u8>>) {
        (self.spec_secret(), self.spec_fallback_secrets())
    }

    /// Create new `HandlerBuilder` with the defaults: cookie name
    /// `salvo.sid`, path `/`, no domain, one-day time-to-live, lax
    /// same-site policy, save-unchanged on.
    pub fn new(secret: &[u8]) -> (b: HandlerBuilder)
        ensures
            b.spec_secret() == secret@,
            b.spec_fallback_secrets() =~= Seq::<Seq<u8>>::empty(),
            b.spec_cookie_path() == "/"@,
            b.spec_cookie_name() == "salvo.sid"@,
            b.spec_cookie_domain() is None,
            b.spec_session_ttl() == Some(DEFAULT_TTL_SECS),
            b.spec_save_unchanged(),
            b.spec_same_site() == SameSitePolicy::Lax,
    {
        HandlerBuilder {
            cookie_path: String::from_str("/"),
            cookie_name: String::from_str("salvo.sid"),
            cookie_domain: None,
            session_ttl: Some(DEFAULT_TTL_SECS),
            save_unchanged: true,
            same_site_policy: SameSitePolicy::Lax,
            secret: vstd::slice::slice_to_vec(secret),
            fallback_secrets: Vec::new(),
        }
    }

    /// Set a cookie path for this session middleware.
    pub fn cookie_path(self, path: &str) -> (b: HandlerBuilder)
        ensures
            b.spec_cookie_path() == path@,
            b.spec_cookie_name() == self.spec_cookie_name(),
            b.spec_cookie_domain() == self.spec_cookie_domain(),
            b.spec_session_ttl() == self.spec_session_ttl(),
            b.spec_save_unchanged() == self.spec_save_unchanged(),
            b.spec_same_site() == self.spec_same_site(),
            b.spec_secrets() == self.spec_secrets(),
    {
        HandlerBuilder { cookie_path: path.to_owned(), ..self }
    }

    /// Set the session time-to-live, used both for the cookie expiry
    /// and for the session-internal expiry; `None` sets neither.
    pub fn session_ttl(self, session_ttl: Option<u64>) -> (b: HandlerBuilder)
        ensures
            b.spec_session_ttl() == session_ttl,
            b.spec_cookie_name() == self.spec_cookie_name(),
            b.spec_cookie_path() == self.spec_cookie_path(),
            b.spec_cookie_domain() == self.spec_cookie_domain(),
            b.spec_save_unchanged() == self.spec_save_unchanged(),
            b.spec_same_site() == self.spec_same_site(),
            b.spec_secrets() == self.spec_secrets(),
    {
        HandlerBuilder { session_ttl, ..self }
    }

    /// Set the name of the cookie the session travels in.
    pub fn cookie_name(self, cookie_name: &str) -> (b: HandlerBuilder)
        ensures
            b.spec_cookie_name() == cookie_name@,
            b.spec_cookie_path() == self.spec_cookie_path(),
            b.spec_cookie_domain() == self.spec_cookie_domain(),
            b.spec_session_ttl() == self.spec_session_ttl(),
            b.spec_save_unchanged() == self.spec_save_unchanged(),
            b.spec_same_site() == self.spec_same_site(),
            b.spec_secrets() == self.spec_secrets(),
    {
        HandlerBuilder { cookie_name: cookie_name.to_owned(), ..self }
    }

    /// Set the `save_unchanged` policy: when on, every request gets a
    /// cookie; when off, only a session whose data changed is persisted.
    pub fn save_unchanged(self, value: bool) -> (b: HandlerBuilder)
        ensures
            b.spec_save_unchanged() == value,
            b.spec_cookie_name() == self.spec_cookie_name(),
            b.spec_cookie_path() == self.spec_cookie_path(),
            b.spec_cookie_domain() == self.spec_cookie_domain(),
            b.spec_session_ttl() == self.spec_session_ttl(),
            b.spec_same_site() == self.spec_same_site(),
            b.spec_secrets() == self.spec_secrets(),
    {
        HandlerBuilder { save_unchanged: value, ..self }
    }

    /// Set the same-site policy of the session cookie.
    pub fn same_site_policy(self, policy: SameSitePolicy) -> (b: HandlerBuilder)
        ensures
            b.spec_same_site() == policy,
            b.spec_cookie_name() == self.spec_cookie_name(),
            b.spec_cookie_path() == self.spec_cookie_path(),
            b.spec_cookie_domain() == self.spec_cookie_domain(),
            b.spec_session_ttl() == self.spec_session_ttl(),
            b.spec_save_unchanged() == self.spec_save_unchanged(),
            b.spec_secrets() == self.spec_secrets(),
    {
        HandlerBuilder { same_site_policy: policy, ..self }
    }

    /// Set the domain of the cookie.
    pub fn cookie_domain(self, cookie_domain: &str) -> (b: HandlerBuilder)
        ensures
            b.spec_cookie_domain() == Some(cookie_domain@),
            b.spec_cookie_name() == self.spec_cookie_name(),
            b.spec_cookie_path() == self.spec_cookie_path(),
            b.spec_session_ttl() == self.spec_session_ttl(),
            b.spec_save_unchanged() == self.spec_save_unchanged(),
            b.spec_same_site() == self.spec_same_site(),
            b.spec_secrets() == self.spec_secrets(),
    {
        HandlerBuilder { cookie_domain: Some(cookie_domain.to_owned()), ..self }
    }

    /// Set the fallback secrets, replacing any set before.
    pub fn fallback_keys(self, secrets: Vec<Vec<u8>>) -> (b: HandlerBuilder)
        ensures
            b.spec_fallback_secrets() == secrets@.map_values(|s: Vec<u8>| s@),
            b.spec_secret() == self.spec_secret(),
            b.spec_config() == self.spec_config(),
    {
        HandlerBuilder { fallback_secrets: secrets, ..self }
    }

    /// Add one fallback secret after those already set.
    pub fn add_fallback_key(self, secret: &[u8]) -> (b: HandlerBuilder)
        ensures
            b.spec_fallback_secrets() =~= self.spec_fallback_secrets().push(secret@),
            b.spec_secret() == self.spec_secret(),
            b.spec_config() == self.spec_config(),
    {
        let ghost old_fb = self.fallback_secrets@;
        let HandlerBuilder {
            cookie_path,
            cookie_name,
            cookie_domain,
            session_ttl,
            save_unchanged,
            same_site_policy,
            secret: primary_secret,
            mut fallback_secrets,
        } = self;
        fallback_secrets.push(vstd::slice::slice_to_vec(secret));
        proof {
            assert(fallback_secrets@.map_values(|s: Vec<u8>| s@) =~= old_fb.map_values(
                |s: Vec<u8>| s@,
            ).push(secret@));
        }
        HandlerBuilder {
            cookie_path,
            cookie_name,
            cookie_domain,
            session_ttl,
            save_unchanged,
            same_site_policy,
            secret: primary_secret,
            fallback_secrets,
        }
    }

    /// Build `SessionHandler`: derives the key set and fails exactly
    /// when some secret is shorter than 64 bytes.
    pub fn build(self) -> (r: Result<SessionHandler, ConfigError>)
        requires
            self.spec_fallback_secrets().len() < usize::MAX,
        ensures
            match r {
                Ok(h) => {
                    &&& h.wf()
                    &&& self.spec_secret().len() >= 64
                    &&& forall|i: int|
                        0 <= i < self.spec_fallback_secrets().len() ==> (
                        #[trigger] self.spec_fallback_secrets()[i]).len() >= 64
                    &&& h.spec_cookie_name() == self.spec_cookie_name()
                    &&& h.spec_cookie_path() == self.spec_cookie_path()
                    &&& h.spec_cookie_domain() == self.spec_cookie_domain()
                    &&& h.spec_session_ttl() == self.spec_session_ttl()
                    &&& h.spec_save_unchanged() == self.spec_save_unchanged()
                    &&& h.spec_same_site() == self.spec_same_site()
                    &&& h.spec_primary_key() == self.spec_secret().subrange(0, 32)
                    &&& h.spec_keys().len() == 1 + self.spec_fallback_secrets().len()
                    &&& h.spec_keys()[0] == self.spec_secret().subrange(0, 32)
                    &&& forall|i: int|
                        0 <= i < self.spec_fallback_secrets().len() ==> #[trigger] h.spec_keys()[i
                            + 1] == self.spec_fallback_secrets()[i].subrange(0, 32)
                },
                Err(e) => {
                    &&& e == ConfigError::InvalidKeyLength
                    &&& (self.spec_secret().len() < 64 || exists|i: int|
                        0 <= i < self.spec_fallback_secrets().len() && (
                        #[trigger] self.spec_fallback_secrets()[i]).len() < 64)
                },
            },
    {
        proof {
            assert(self.spec_fallback_secrets().len() == self.fallback_secrets@.len());
            assert(forall|i: int|
                0 <= i < self.fallback_secrets@.len() ==> self.spec_fallback_secrets()[i] == (
                #[trigger] self.fallback_secrets@[i])@);
        }
        let keys = match SigningKeySet::from_secrets(self.secret.as_slice(), &self.fallback_secrets) {
            Ok(k) => k,
            Err(e) => {
                proof {
                    if self.spec_secret().len() >= 64 {
                        let i = choose|i: int|
                            0 <= i < self.fallback_secrets@.len() && (
                            #[trigger] self.fallback_secrets@[i])@.len() < 64;
                        assert(self.spec_fallback_secrets()[i].len() < 64);
                    }
                }
                return Err(e);
            },
        };
        Ok(
            SessionHandler {
                cookie_path: self.cookie_path,
                cookie_name: self.cookie_name,
                cookie_domain: self.cookie_domain,
                session_ttl: self.session_ttl,
                save_unchanged: self.save_unchanged,
                same_site_policy: self.same_site_policy,
                keys,
            },
        )
    }
}

} // verus!
