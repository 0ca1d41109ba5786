//! Users, the claims that a session token carries, and the authentication
//! of incoming requests by their `Authorization` header.

use vstd::prelude::*;

use crate::access::{has_prefix, starts_with_spec, Role};

verus! {

/// What a session token asserts about its bearer.
#[derive(Debug)]
pub struct Claims {
    /// The user's email.
    pub sub: String,
    /// The user's role.
    pub role: Role,
    /// When the token expires, in seconds since the Unix epoch.
    pub exp: usize,
}

/// The claims of a token as plain values.
pub struct ClaimsView {
    pub sub: Seq<char>,
    pub role: Role,
    pub exp: usize,
}

impl View for Claims {
    type V = ClaimsView;

    open spec fn view(&self) -> ClaimsView {
        ClaimsView { sub: self.sub@, role: self.role, exp: self.exp }
    }
}

impl Claims {
    /// The claims of a token issued at `now` (seconds since the Unix epoch)
    /// to the user `email` holding `role`, valid for `expiry_in_secs` seconds.
    pub fn issue(email: &str, role: Role, now: usize, expiry_in_secs: usize) -> (claims: Claims)
        requires
            now + expiry_in_secs <= usize::MAX,
        ensures
            claims@ == (ClaimsView { sub: email@, role: role, exp: (now + expiry_in_secs) as usize }),
    {
        let exp = now + expiry_in_secs;
        Claims { sub: email.to_string(), role, exp }
    }
}

/// A user known to the gateway.
#[derive(Debug, Clone)]
pub struct UserToken {
    pub email: String,
    pub role: Role,
}

impl UserToken {
    /// A user with the given email and role.
    pub fn new(email: &str, role: Role) -> (user: Self)
        ensures
            user.email@ == email@,
            user.role == role,
    {
        Self { email: email.to_string(), role }
    }
}

/// Appends `c` to the end of `s` by `String::push`, which, as std documents
/// it, appends the given character to the end of the string.
#[verifier::external_body]
fn push_char(s: &mut String, c: char)
    ensures
        final(s)@ == old(s)@.push(c),
{
    s.push(c);
}

/// A byte that `http`'s `HeaderValue::to_str` accepts in a header's text: a
/// visible ASCII character or a horizontal tab.
pub open spec fn is_visible_ascii(b: u8) -> bool {
    (32 <= b && b < 127) || b == 9
}

/// The text of a header value as the gateway reads it: the value's bytes
/// taken as characters where every byte is visible ASCII, and the empty text
/// where some byte is not.
pub open spec fn header_text(bytes: Seq<u8>) -> Seq<char> {
    if forall|i: int| 0 <= i < bytes.len() ==> is_visible_ascii(#[trigger] bytes[i]) {
        bytes.map_values(|b: u8| b as char)
    } else {
        Seq::empty()
    }
}

/// The text of a header value (see `header_text`).
pub fn header_value_text(bytes: &Vec<u8>) -> (text: String)
    ensures
        text@ == header_text(bytes@),
{
    let mut text = String::new();
    let mut i: usize = 0;
    while i < bytes.len()
        invariant
            i <= bytes@.len(),
            text@ == bytes@.subrange(0, i as int).map_values(|b: u8| b as char),
            forall|j: int| 0 <= j < i ==> is_visible_ascii(#[trigger] bytes@[j]),
        decreases bytes@.len() - i,
    {
        let b = bytes[i];
        if !((32 <= b && b < 127) || b == 9) {
            assert(!is_visible_ascii(bytes@[i as int]));
            return String::new();
        }
        push_char(&mut text, b as char);
        assert(bytes@.subrange(0, i + 1).map_values(|b: u8| b as char) =~= bytes@.subrange(
            0,
            i as int,
        ).map_values(|b: u8| b as char).push(b as char));
        i = i + 1;
    }
    assert(bytes@.subrange(0, i as int) =~= bytes@);
    text
}

/// What the authentication of a request reads from it.
pub struct AuthRequest {
    /// The path of the request's URI.
    pub path: String,
    /// The raw bytes of the request's first `Authorization` header, if it
    /// has one.
    pub authorization: Option<Vec<u8>>,
}

/// A request's path and `Authorization` header as plain values.
pub struct AuthRequestView {
    pub path: Seq<char>,
    pub authorization: Option<Seq<u8>>,
}

impl View for AuthRequest {
    type V = AuthRequestView;

    open spec fn view(&self) -> AuthRequestView {
        AuthRequestView {
            path: self.path@,
            authorization: match self.authorization {
                Some(bytes) => Some(bytes@),
                None => None,
            },
        }
    }
}

/// Why a request was refused.
#[derive(Debug, Clone, Copy, PartialEq, Eq, Structural)]
pub enum AuthError {
    /// The request has no `Authorization` header.
    MissingAuthorization,
    /// The `Authorization` header is not of the form `Bearer <token>`.
    MalformedAuthorization,
    /// The bearer token did not decode to valid claims.
    InvalidToken,
}

impl AuthError {
    /// The HTTP status with which a refused request is answered: every
    /// refusal is answered `401 Unauthorized`.
    pub fn status_code(&self) -> (code: u16)
        ensures
            code == 401,
    {
        401
    }
}

/// What the gateway does next with a request.
#[derive(Debug)]
pub enum AuthAction {
    /// Pass the request on without asking for credentials.
    Forward,
    /// Decode this bearer token and report the outcome to
    /// `complete_authentication`.
    Verify(String),
    /// Pass the request on, carrying the decoded claims.
    Admit(Claims),
    /// Refuse the request.
    Reject(AuthError),
}

/// An `AuthAction` as plain values.
pub enum AuthActionView {
    Forward,
    Verify(Seq<char>),
    Admit(ClaimsView),
    Reject(AuthError),
}

impl View for AuthAction {
    type V = AuthActionView;

    open spec fn view(&self) -> AuthActionView {
        match self {
            AuthAction::Forward => AuthActionView::Forward,
            AuthAction::Verify(token) => AuthActionView::Verify(token@),
            AuthAction::Admit(claims) => AuthActionView::Admit(claims@),
            AuthAction::Reject(err) => AuthActionView::Reject(*err),
        }
    }
}

/// The first step of authenticating a request: requests to `/login` pass
/// without credentials; any other request needs an `Authorization` header
/// whose text begins with `Bearer `, and the rest of that text is the token
/// to decode.
pub open spec fn authentication_start(req: AuthRequestView) -> AuthActionView {
    if starts_with_spec(req.path, "/login"@) {
        AuthActionView::Forward
    } else {
        match req.authorization {
            None => AuthActionView::Reject(AuthError::MissingAuthorization),
            Some(bytes) => {
                let text = header_text(bytes);
                if starts_with_spec(text, "Bearer "@) {
                    AuthActionView::Verify(text.skip("Bearer "@.len() as int))
                } else {
                    AuthActionView::Reject(AuthError::MalformedAuthorization)
                }
            },
        }
    }
}

/// The last step of authenticating a request, once its bearer token has been
/// decoded: decoded claims admit the request and travel with it; a token
/// that did not decode refuses it.
pub open spec fn authentication_finish(decoded: Option<ClaimsView>) -> AuthActionView {
    match decoded {
        Some(claims) => AuthActionView::Admit(claims),
        None => AuthActionView::Reject(AuthError::InvalidToken),
    }
}

/// Decide what to do with a request before any token is checked (see
/// `authentication_start`).
pub fn begin_authentication(req: &AuthRequest) -> (action: AuthAction)
    ensures
        action@ == authentication_start(req@),
{
    if has_prefix(req.path.as_str(), "/login") {
        return AuthAction::Forward;
    }
    match &req.authorization {
        None => AuthAction::Reject(AuthError::MissingAuthorization),
        Some(bytes) => {
            let text = header_value_text(bytes);
            if has_prefix(text.as_str(), "Bearer ") {
                let start = "Bearer ".unicode_len();
                let end = text.as_str().unicode_len();
                let token = text.as_str().substring_char(start, end);
                AuthAction::Verify(token.to_string())
            } else {
                AuthAction::Reject(AuthError::MalformedAuthorization)
            }
        },
    }
}

/// Decide what to do with a request once its bearer token has been decoded,
/// `decoded` being the claims it decoded to, or `None` where it did not
/// decode (see `authentication_finish`).
pub fn complete_authentication(decoded: Option<Claims>) -> (action: AuthAction)
    ensures
        action@ == authentication_finish(
            match decoded {
                Some(claims) => Some(claims@),
                None => None,
            },
        ),
{
    match decoded {
        Some(claims) => AuthAction::Admit(claims),
        None => AuthAction::Reject(AuthError::InvalidToken),
    }
}

/// Requests to paths under `/login` pass without credentials, whatever their
/// `Authorization` header holds.
pub proof fn login_needs_no_credentials(req: AuthRequestView)
    requires
        starts_with_spec(req.path, "/login"@),
    ensures
        authentication_start(req) == AuthActionView::Forward,
{
}

/// A request to any other path is never passed on unchecked: its first step
/// either asks for its token to be decoded or refuses it.
pub proof fn other_paths_need_a_token(req: AuthRequestView)
    requires
        !starts_with_spec(req.path, "/login"@),
    ensures
        authentication_start(req) is Verify || authentication_start(req) is Reject,
{
}

/// Outside `/login`, a request whose `Authorization` text does not begin
/// with `Bearer ` is refused as malformed, and one without the header as
/// missing its credentials.
pub proof fn non_bearer_headers_are_refused(req: AuthRequestView)
    requires
        !"/login"@.is_prefix_of(req.path),
    ensures
        req.authorization is None ==> authentication_start(req) == AuthActionView::Reject(
            AuthError::MissingAuthorization,
        ),
        req.authorization matches Some(bytes) && !"Bearer "@.is_prefix_of(header_text(bytes))
            ==> authentication_start(req) == AuthActionView::Reject(
            AuthError::MalformedAuthorization,
        ),
{
}

/// A token is only ever handed on to be decoded from a request outside
/// `/login` whose `Authorization` text is `Bearer ` followed by that token.
pub proof fn tokens_come_only_from_bearer_headers(req: AuthRequestView, token: Seq<char>)
    requires
        authentication_start(req) == AuthActionView::Verify(token),
    ensures
        !"/login"@.is_prefix_of(req.path),
        req.authorization matches Some(bytes) && header_text(bytes) == "Bearer "@ + token,
{
    let bytes = req.authorization->0;
    let text = header_text(bytes);
    assert(text =~= "Bearer "@ + text.skip("Bearer "@.len() as int));
}

/// The bytes of the scheme `Bearer ` that begins a bearer `Authorization`
/// header.
pub open spec fn bearer_scheme_bytes() -> Seq<u8> {
    seq![66u8, 101u8, 97u8, 114u8, 101u8, 114u8, 32u8]
}

/// A header `Bearer <token>`, the token being visible ASCII, hands exactly
/// that token on to be decoded, for a request to any path outside `/login`.
pub proof fn bearer_header_yields_its_token(path: Seq<char>, token: Seq<u8>)
    requires
        !starts_with_spec(path, "/login"@),
        forall|i: int| 0 <= i < token.len() ==> is_visible_ascii(#[trigger] token[i]),
    ensures
        authentication_start(
            AuthRequestView { path: path, authorization: Some(bearer_scheme_bytes() + token) },
        ) == AuthActionView::Verify(token.map_values(|b: u8| b as char)),
{
    reveal_strlit("Bearer ");
    let bytes = bearer_scheme_bytes() + token;
    assert forall|i: int| 0 <= i < bytes.len() implies is_visible_ascii(#[trigger] bytes[i]) by {
        if i >= 7 {
            assert(bytes[i] == token[i - 7]);
        }
    }
    let text = header_text(bytes);
    assert(text =~= bytes.map_values(|b: u8| b as char));
    assert(text.subrange(0, 7) =~= "Bearer "@);
    assert(text.skip(7) =~= token.map_values(|b: u8| b as char));
}

/// Decoded claims admit the request and travel with it unchanged; a token
/// that did not decode refuses the request as an invalid token.
pub proof fn decoded_claims_are_admitted(claims: ClaimsView)
    ensures
        authentication_finish(Some(claims)) == AuthActionView::Admit(claims),
        authentication_finish(None) == AuthActionView::Reject(AuthError::InvalidToken),
{
}

} // verus!
