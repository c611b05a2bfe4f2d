//! Where the backend is reached: its REST paths, the payload of a mutation
//! call, and the configuration that every request shares.
use vstd::prelude::*;
use crate::light::Action;
use reqwest::header::{HeaderValue, InvalidHeaderValue};

verus! {

#[verifier::external_type_specification]
#[verifier::external_body]
pub struct ExHeaderValue(HeaderValue);

#[verifier::external_type_specification]
#[verifier::external_body]
pub struct ExInvalidHeaderValue(InvalidHeaderValue);

/// A character that a header value may hold: a tab, or anything from the
/// space upwards but DEL. Every character outside ASCII is encoded in UTF-8 as
/// bytes of 128 and more, which a header value accepts.
pub open spec fn header_char_ok(c: char) -> bool {
    (c as u32 >= 32 && c as u32 != 127) || c == '\t'
}

/// A text that can stand as a header value.
pub open spec fn header_text_ok(s: Seq<char>) -> bool {
    forall|i: int| 0 <= i < s.len() ==> #[trigger] header_char_ok(s[i])
}

/// The path that reports the state of an entity.
pub open spec fn state_path_of(entity_id: Seq<char>) -> Seq<char> {
    "/api/states/"@ + entity_id
}

/// The path of the light service that performs an action.
pub open spec fn service_path_of(action: Action) -> Seq<char> {
    "/api/services/light/"@ + match action {
        Action::TurnOn => "turn_on"@,
        Action::TurnOff => "turn_off"@,
    }
}

/// The text of the authorization header that carries a token.
pub open spec fn bearer_of(token: Seq<char>) -> Seq<char> {
    "Bearer "@ + token
}

/// The `Bearer ` prefix never spoils a header: the authorization text is
/// acceptable exactly when the token is.
proof fn lemma_bearer_ok(token: Seq<char>)
    ensures
        header_text_ok(bearer_of(token)) <==> header_text_ok(token),
{
    reveal_strlit("Bearer ");
    let b = bearer_of(token);
    assert(b.len() == token.len() + 7);
    if header_text_ok(b) {
        assert forall|i: int| 0 <= i < token.len() implies #[trigger] header_char_ok(token[i]) by {
            assert(b[i + 7] == token[i]);
        }
    }
    if header_text_ok(token) {
        assert forall|i: int| 0 <= i < b.len() implies #[trigger] header_char_ok(b[i]) by {
            if i >= 7 {
                assert(b[i] == token[i - 7]);
            }
        }
    }
}

/// The path under the backend's base address that reports an entity's state.
pub fn state_path(entity_id: &str) -> (r: String)
    ensures
        r@ == state_path_of(entity_id@),
{
    let mut p = String::from_str("/api/states/");
    p.append(entity_id);
    p
}

/// The path under the backend's base address of the service for an action.
pub fn service_path(action: Action) -> (r: String)
    ensures
        r@ == service_path_of(action),
{
    let mut p = String::from_str("/api/services/light/");
    p.append(action.service());
    p
}

/// The full address of a path on the backend.
pub fn join_url(base_url: &str, path: &str) -> (r: String)
    ensures
        r@ == base_url@ + path@,
{
    let mut u = String::from_str(base_url);
    u.append(path);
    u
}

/// The text of the authorization header for a token.
pub fn bearer_text(token: &str) -> (r: String)
    ensures
        r@ == bearer_of(token@),
{
    let mut t = String::from_str("Bearer ");
    t.append(token);
    t
}

/// A header value together with what it holds: the text it was parsed from,
/// and whether it is flagged sensitive.
pub struct AuthHeader {
    value: HeaderValue,
    text: Ghost<Seq<char>>,
    sensitive: Ghost<bool>,
}

impl AuthHeader {
    /// The text of the header value.
    pub closed spec fn text(&self) -> Seq<char> {
        self.text@
    }

    /// Whether the value is kept out of debug and log output.
    pub closed spec fn sensitive(&self) -> bool {
        self.sensitive@
    }

    /// The header value itself, for the client that sends it.
    pub fn value(&self) -> (r: &HeaderValue) {
        &self.value
    }
}

/// Relies on `HeaderValue::from_str`: it returns `Ok` exactly when every byte
/// of the text is a tab, or at least 32 and not 127; the value then holds
/// that text and is not flagged sensitive.
#[verifier::external_body]
fn parse_header_value(s: &str) -> (r: Result<AuthHeader, InvalidHeaderValue>)
    ensures
        r is Ok <==> header_text_ok(s@),
        r matches Ok(h) ==> h.text() == s@ && !h.sensitive(),
{
    let value = HeaderValue::from_str(s)?;
    Ok(AuthHeader { value, text: Ghost(s@), sensitive: Ghost(false) })
}

/// Relies on `HeaderValue::set_sensitive`: it flags the value so that it is
/// kept out of debug and log output, and leaves its text as it was.
#[verifier::external_body]
fn mark_sensitive(h: &mut AuthHeader)
    ensures
        final(h).text() == old(h).text(),
        final(h).sensitive(),
{
    h.value.set_sensitive(true);
    h.sensitive = Ghost(true);
}

/// The target of a mutation call: the entity that it acts on.
#[derive(Clone, Debug)]
pub struct Entity {
    pub entity_id: String,
}

/// Why the service cannot start.
#[derive(Clone, Copy, Debug, PartialEq, Eq, Structural)]
pub enum ConfigError {
    /// No bearer credential was supplied.
    MissingCredential,
    /// The credential cannot be carried in an authorization header.
    InvalidCredential,
    /// No entity identifier was supplied.
    MissingEntity,
}

impl ConfigError {
    /// A message that says what is wrong.
    pub fn message(&self) -> (r: &'static str)
        ensures
            *self == ConfigError::MissingCredential ==> r@ == "YAGAMI_TOKEN should be set"@,
            *self == ConfigError::InvalidCredential ==> r@
                == "This should be a valid string"@,
            *self == ConfigError::MissingEntity ==> r@ == "LIGHT_ID should be set"@,
    {
        match self {
            ConfigError::MissingCredential => "YAGAMI_TOKEN should be set",
            ConfigError::InvalidCredential => "This should be a valid string",
            ConfigError::MissingEntity => "LIGHT_ID should be set",
        }
    }
}

/// The configuration shared read-only by every request: where the backend
/// is, which light it controls, and the credential it presents.
pub struct Config {
    base_url: String,
    entity_id: String,
    authorization: AuthHeader,
    token: Ghost<Seq<char>>,
}

impl Config {
    /// The credential that the authorization header carries.
    pub closed spec fn token(&self) -> Seq<char> {
        self.token@
    }

    /// The backend's base address.
    pub closed spec fn spec_base_url(&self) -> Seq<char> {
        self.base_url@
    }

    /// The authorization header that every backend call carries.
    pub closed spec fn spec_authorization(&self) -> AuthHeader {
        self.authorization
    }

    /// The identifier of the light.
    pub closed spec fn spec_entity_id(&self) -> Seq<char> {
        self.entity_id@
    }

    pub fn base_url(&self) -> (r: &str)
        ensures
            r@ == self.spec_base_url(),
    {
        self.base_url.as_str()
    }

    pub fn entity_id(&self) -> (r: &str)
        ensures
            r@ == self.spec_entity_id(),
    {
        self.entity_id.as_str()
    }

    /// Every configuration holds a credential that a header can carry, in an
    /// authorization header `Bearer <token>` that is flagged sensitive.
    #[verifier::type_invariant]
    pub closed spec fn wf(&self) -> bool {
        &&& header_text_ok(self.token@)
        &&& self.authorization.text() == bearer_of(self.token@)
        &&& self.authorization.sensitive()
    }

    /// The authorization header that every backend call carries.
    pub fn authorization(&self) -> (r: &AuthHeader)
        ensures
            *r == self.spec_authorization(),
            r.text() == bearer_of(self.token()),
            r.sensitive(),
    {
        proof {
            use_type_invariant(self);
        }
        &self.authorization
    }

    /// Builds the configuration from what the environment supplied. The
    /// credential is looked at first, then the entity identifier.
    pub fn new(token: Option<String>, entity_id: Option<String>, base_url: String) -> (r: Result<
        Config,
        ConfigError,
    >)
        ensures
            token is None ==> r == Err::<Config, _>(ConfigError::MissingCredential),
            token matches Some(t) && !header_text_ok(t@) ==> r == Err::<Config, _>(
                ConfigError::InvalidCredential,
            ),
            token matches Some(t) && header_text_ok(t@) && entity_id is None ==> r == Err::<
                Config,
                _,
            >(ConfigError::MissingEntity),
            r matches Ok(c) ==> {
                &&& token matches Some(t) && c.token() == t@
                &&& entity_id matches Some(e) && c.spec_entity_id() == e@
                &&& c.spec_base_url() == base_url@
                &&& c.spec_authorization().text() == bearer_of(c.token())
                &&& c.spec_authorization().sensitive()
            },
            (token matches Some(t) && header_text_ok(t@)) && entity_id is Some ==> r is Ok,
    {
        let token = match token {
            None => return Err(ConfigError::MissingCredential),
            Some(t) => t,
        };
        let text = bearer_text(token.as_str());
        proof {
            lemma_bearer_ok(token@);
        }
        let mut authorization = match parse_header_value(text.as_str()) {
            Err(_) => return Err(ConfigError::InvalidCredential),
            Ok(v) => v,
        };
        mark_sensitive(&mut authorization);
        let entity_id = match entity_id {
            None => return Err(ConfigError::MissingEntity),
            Some(e) => e,
        };
        Ok(Config { base_url, entity_id, authorization, token: Ghost(token@) })
    }
}

} // verus!
