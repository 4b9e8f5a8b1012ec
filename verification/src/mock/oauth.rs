//! The mock Connect (`OAuth2`) endpoints: authorization, token exchange and
//! user details, as transitions of the [`MockState`].
//!
//! Each endpoint is stated as a spec function from the state (and request)
//! to the next state and the response, and each executable endpoint is
//! proved to follow it.

use vstd::prelude::*;

use crate::mock::state::{grant_cid, reset_spec, Grant, MockState, MockStateView};
use crate::mock::store::{
    keys_unique, lemma_upserted_keeps_keys_unique, lemma_without_key_keeps_keys_unique, lookup,
    upserted, without_key, KeyView,
};
use crate::number::{decimal_chars, decimal_text, hex_chars, hex_text, parse_u32, parse_u32_spec};
use crate::text::{chars_eq_str, chars_of, string_of, sub_chars};
use crate::types::connect::{ConnectUser, ConnectUserResponse, OAuthError, TokenResponse};
use crate::types::slurper::opt_view;
use crate::types::CertificateId;

verus! {

/// The text of the mock token with the given prefix and number:
/// `mock_{prefix}_{number:016x}`.
pub open spec fn mock_token_text(prefix: Seq<char>, number: u64) -> Seq<char> {
    "mock_"@ + prefix + "_"@ + hex_text(number as nat, 16)
}

/// Generates the opaque mock token with a descriptive prefix and the given
/// number, written as sixteen lower-case hexadecimal digits.
///
/// Not cryptographically secure: tokens are told apart by their numbers
/// alone (see [`lemma_mock_tokens_distinct`]).
pub fn generate_mock_token(prefix: &str, number: u64) -> (r: String)
    ensures
        r@ == mock_token_text(prefix@, number),
{
    let mut r = String::from_str("mock_");
    r.append(prefix);
    r.append("_");
    let digits = string_of(&hex_chars(number, 16));
    r.append(digits.as_str());
    r
}

/// An OAuth failure: the HTTP status and the error body, taken by its text.
pub struct OAuthFailure {
    pub status: u16,
    pub error: Seq<char>,
    pub error_description: Option<Seq<char>>,
    pub message: Option<Seq<char>>,
    pub hint: Option<Seq<char>>,
}

/// The failure an endpoint answers with: a status, an error code and a
/// description.
pub open spec fn failure(status: u16, error: Seq<char>, description: Seq<char>) -> OAuthFailure {
    OAuthFailure {
        status,
        error,
        error_description: Some(description),
        message: None,
        hint: None,
    }
}

/// The failure an error response holds.
pub open spec fn failure_view(e: (u16, OAuthError)) -> OAuthFailure {
    OAuthFailure {
        status: e.0,
        error: e.1.error@,
        error_description: opt_view(e.1.error_description),
        message: opt_view(e.1.message),
        hint: opt_view(e.1.hint),
    }
}

/// An error response with the given status, error code and description.
fn oauth_error(status: u16, error: &str, description: String) -> (r: (u16, OAuthError))
    ensures
        failure_view(r) == failure(status, error@, description@),
{
    (
        status,
        OAuthError {
            error: String::from_str(error),
            error_description: Some(description),
            message: None,
            hint: None,
        },
    )
}

/// The URL that `url::Url::parse` makes of `uri` with the name/value `pairs`
/// appended to its query in `application/x-www-form-urlencoded` form, as text;
/// or the text of the parse error.
pub uninterp spec fn url_with_query(
    uri: Seq<char>,
    pairs: Seq<(Seq<char>, Seq<char>)>,
) -> Result<Seq<char>, Seq<char>>;

/// The texts of a list of name/value pairs.
pub open spec fn pair_texts(v: Seq<(String, String)>) -> Seq<(Seq<char>, Seq<char>)> {
    v.map_values(|p: (String, String)| (p.0@, p.1@))
}

/// The text of an outcome with text on both sides.
pub open spec fn text_result(r: Result<String, String>) -> Result<Seq<char>, Seq<char>> {
    match r {
        Ok(s) => Ok(s@),
        Err(e) => Err(e@),
    }
}

/// Parses `uri` with `url::Url::parse` and appends `pairs` to its query with
/// `query_pairs_mut().extend_pairs(..)`, giving the URL's text, or the
/// `Display` text of the parse error. The contract names the result
/// [`url_with_query`] of the arguments; what that is on given text is the
/// `url` crate's business and is not stated.
#[verifier::external_body]
fn append_query_pairs(uri: &str, pairs: &Vec<(String, String)>) -> (r: Result<String, String>)
    ensures
        text_result(r) == url_with_query(uri@, pair_texts(pairs@)),
{
    match url::Url::parse(uri) {
        Ok(mut url) => {
            url.query_pairs_mut().extend_pairs(pairs.iter());
            Ok(url.as_str().to_owned())
        },
        Err(e) => Err(e.to_string()),
    }
}

/// The description when no user is configured.
pub open spec fn no_users_text() -> Seq<char> {
    "No users configured in mock server"@
}

/// The description when `login_hint` names no configured user.
pub open spec fn unknown_hint_text() -> Seq<char> {
    "login_hint does not name a configured user"@
}

/// The CID an authorization authenticates: the user named by `login_hint`
/// (a CID) when one is given, else the first configured user; or the
/// description of why there is none.
pub open spec fn chosen_cid(users: Seq<ConnectUser>, login_hint: Option<Seq<char>>) -> Result<
    u32,
    Seq<char>,
> {
    match login_hint {
        None => if users.len() == 0 {
            Err(no_users_text())
        } else {
            Ok(users[0].cid@)
        },
        Some(h) => match parse_u32_spec(h) {
            Some(c) => if lookup::<ConnectUser>(users, KeyView::Cid(c)) is Some {
                Ok(c)
            } else {
                Err(unknown_hint_text())
            },
            None => Err(unknown_hint_text()),
        },
    }
}


/// The text of an optional string slice.
pub open spec fn opt_text(o: Option<&str>) -> Option<Seq<char>> {
    match o {
        Some(s) => Some(s@),
        None => None,
    }
}

/// The outcome of an endpoint that answers with a redirect location.
pub open spec fn location_view(r: Result<String, (u16, OAuthError)>) -> Result<
    Seq<char>,
    OAuthFailure,
> {
    match r {
        Ok(l) => Ok(l@),
        Err(e) => Err(failure_view(e)),
    }
}

/// The query pairs of the redirect after an authorization: the code, then
/// the client's `state` when it sent one.
pub open spec fn redirect_pairs(code: Seq<char>, csrf_state: Option<Seq<char>>) -> Seq<
    (Seq<char>, Seq<char>),
> {
    match csrf_state {
        Some(st) => seq![("code"@, code), ("state"@, st)],
        None => seq![("code"@, code)],
    }
}

/// The answer to a redirect URI that was, or could not be, extended with the
/// query pairs.
pub open spec fn redirect_outcome(parsed: Result<Seq<char>, Seq<char>>) -> Result<
    Seq<char>,
    OAuthFailure,
> {
    match parsed {
        Ok(l) => Ok(l),
        Err(e) => Err(failure(400, "invalid_request"@, "Invalid redirect_uri: "@ + e)),
    }
}

/// Issuing the code numbered `number` to `cid`: the code becomes pending,
/// and the client is to be redirected to its `redirect_uri` with the code
/// (and its `state`) in the query. The code is issued before the URI is read,
/// so it stays pending when the URI is rejected.
pub open spec fn issue_code_spec(
    v: MockStateView,
    cid: u32,
    number: u64,
    redirect_uri: Seq<char>,
    csrf_state: Option<Seq<char>>,
) -> (MockStateView, Result<Seq<char>, OAuthFailure>) {
    let code = mock_token_text("code"@, number);
    (
        MockStateView { auth_codes: upserted::<Grant>(v.auth_codes, (code, cid)), ..v },
        redirect_outcome(url_with_query(redirect_uri, redirect_pairs(code, csrf_state))),
    )
}

/// `GET /oauth/authorize` as a transition: the chosen user gets the code
/// numbered `number`; when no user can be chosen, the request is refused and
/// nothing changes.
pub open spec fn authorize_spec(
    v: MockStateView,
    redirect_uri: Seq<char>,
    csrf_state: Option<Seq<char>>,
    login_hint: Option<Seq<char>>,
    number: u64,
) -> (MockStateView, Result<Seq<char>, OAuthFailure>) {
    match chosen_cid(v.data.users, login_hint) {
        Err(d) => (v, Err(failure(400, "invalid_request"@, d))),
        Ok(cid) => issue_code_spec(v, cid, number, redirect_uri, csrf_state),
    }
}

/// The answer to the redirect URI after the query was appended, or to the
/// error that parsing it gave.
pub fn redirect_response(parsed: Result<String, String>) -> (r: Result<String, (u16, OAuthError)>)
    ensures
        location_view(r) == redirect_outcome(text_result(parsed)),
{
    match parsed {
        Ok(l) => Ok(l),
        Err(e) => {
            let mut d = String::from_str("Invalid redirect_uri: ");
            d.append(e.as_str());
            Err(oauth_error(400, "invalid_request", d))
        },
    }
}

/// The CID an authorization authenticates, or the description of why there
/// is none.
fn choose_cid(state: &MockState, login_hint: Option<&str>) -> (r: Result<CertificateId, String>)
    ensures
        match r {
            Ok(c) => chosen_cid(state@.data.users, opt_text(login_hint)) == Ok::<u32, Seq<char>>(c@),
            Err(d) => chosen_cid(state@.data.users, opt_text(login_hint)) == Err::<u32, Seq<char>>(d@),
        },
{
    match login_hint {
        None => match state.first_user_cid() {
            Some(c) => Ok(c),
            None => Err(String::from_str("No users configured in mock server")),
        },
        Some(h) => match parse_u32(&chars_of(h)) {
            Some(c) => match state.user(CertificateId::new(c)) {
                Some(_) => Ok(CertificateId::new(c)),
                None => Err(String::from_str("login_hint does not name a configured user")),
            },
            None => Err(String::from_str("login_hint does not name a configured user")),
        },
    }
}

/// The outcome of choosing a user, taken by the CID it gives.
pub open spec fn cid_view(r: Result<CertificateId, (u16, OAuthError)>) -> Result<u32, OAuthFailure> {
    match r {
        Ok(c) => Ok(c@),
        Err(e) => Err(failure_view(e)),
    }
}

/// The answer to choosing a user.
pub open spec fn chosen_outcome(users: Seq<ConnectUser>, login_hint: Option<Seq<char>>) -> Result<
    u32,
    OAuthFailure,
> {
    match chosen_cid(users, login_hint) {
        Ok(c) => Ok(c),
        Err(d) => Err(failure(400, "invalid_request"@, d)),
    }
}

/// The first step of `GET /oauth/authorize`: the user the request
/// authenticates, named by `login_hint` (a CID) or else the first user.
pub fn select_user(state: &MockState, login_hint: Option<&str>) -> (r: Result<
    CertificateId,
    (u16, OAuthError),
>)
    ensures
        cid_view(r) == chosen_outcome(state@.data.users, opt_text(login_hint)),
{
    match choose_cid(state, login_hint) {
        Ok(c) => Ok(c),
        Err(d) => Err(oauth_error(400, "invalid_request", d)),
    }
}

/// The second step of `GET /oauth/authorize`: the code numbered `number`
/// is issued to `cid`, and the redirect location carrying it is built. See
/// [`issue_code_spec`].
pub fn issue_code(
    state: &mut MockState,
    cid: CertificateId,
    number: u64,
    redirect_uri: &str,
    csrf_state: Option<&str>,
) -> (r: Result<String, (u16, OAuthError)>)
    ensures
        (final(state)@, location_view(r)) == issue_code_spec(
            old(state)@,
            cid@,
            number,
            redirect_uri@,
            opt_text(csrf_state),
        ),
{
    let code = generate_mock_token("code", number);
    let mut pairs: Vec<(String, String)> = Vec::new();
    pairs.push((String::from_str("code"), code.clone()));
    match csrf_state {
        Some(st) => {
            pairs.push((String::from_str("state"), String::from_str(st)));
        },
        None => {},
    }
    assert(pair_texts(pairs@) =~= redirect_pairs(code@, opt_text(csrf_state)));
    state.add_code(code, cid);
    let parsed = append_query_pairs(redirect_uri, &pairs);
    redirect_response(parsed)
}

/// `GET /oauth/authorize`: auto-approves the request for the user named by
/// `login_hint`, or the first user, and answers with the redirect location
/// carrying the code numbered `number`. See [`authorize_spec`]. The number
/// is the code's only when a user is chosen; a caller that draws numbers
/// from a counter only as they are used calls [`select_user`] and
/// [`issue_code`] in turn.
pub fn authorize(
    state: &mut MockState,
    redirect_uri: &str,
    csrf_state: Option<&str>,
    login_hint: Option<&str>,
    number: u64,
) -> (r: Result<String, (u16, OAuthError)>)
    ensures
        (final(state)@, location_view(r)) == authorize_spec(
            old(state)@,
            redirect_uri@,
            opt_text(csrf_state),
            opt_text(login_hint),
            number,
        ),
{
    let cid = match select_user(state, login_hint) {
        Ok(c) => c,
        Err(e) => {
            return Err(e);
        },
    };
    issue_code(state, cid, number, redirect_uri, csrf_state)
}

/// A token response, taken by its text.
pub struct IssuedToken {
    pub token_type: Seq<char>,
    pub expires_in: u64,
    pub access_token: Seq<char>,
    pub refresh_token: Seq<char>,
    pub scopes: Seq<Seq<char>>,
}

/// The scopes every mock token grants.
pub open spec fn granted_scopes() -> Seq<Seq<char>> {
    seq!["full_name"@, "email"@, "vatsim_details"@, "country"@]
}

/// A token response, taken by its text.
pub open spec fn issued_view(t: TokenResponse) -> IssuedToken {
    IssuedToken {
        token_type: t.token_type@,
        expires_in: t.expires_in,
        access_token: t.access_token@,
        refresh_token: t.refresh_token@,
        scopes: t.scopes@.map_values(|x: String| x@),
    }
}

/// The outcome of a token exchange, taken by its text.
pub open spec fn token_view(r: Result<TokenResponse, (u16, OAuthError)>) -> Result<
    IssuedToken,
    OAuthFailure,
> {
    match r {
        Ok(t) => Ok(issued_view(t)),
        Err(e) => Err(failure_view(e)),
    }
}

/// The first step of `POST /oauth/token`: a pending code is consumed,
/// giving its CID; a missing or unknown code is refused and nothing changes.
pub open spec fn redeem_spec(v: MockStateView, code: Option<Seq<char>>) -> (
    MockStateView,
    Result<u32, OAuthFailure>,
) {
    match code {
        None => (v, Err(failure(400, "invalid_request"@, "Missing `code` parameter"@))),
        Some(c) => match grant_cid(v.auth_codes, c) {
            None => (
                v,
                Err(
                    failure(
                        400,
                        "invalid_grant"@,
                        "Authorization code is invalid or has already been used"@,
                    ),
                ),
            ),
            Some(cid) => (
                MockStateView {
                    auth_codes: without_key::<Grant>(v.auth_codes, KeyView::Name(c)),
                    ..v
                },
                Ok(cid),
            ),
        },
    }
}

/// The second step of `POST /oauth/token`: the access token numbered
/// `access_number` is issued to `cid`, with the refresh token numbered
/// `refresh_number`.
pub open spec fn issue_tokens_spec(
    v: MockStateView,
    cid: u32,
    access_number: u64,
    refresh_number: u64,
) -> (MockStateView, IssuedToken) {
    let access = mock_token_text("access"@, access_number);
    (
        MockStateView { access_tokens: upserted::<Grant>(v.access_tokens, (access, cid)), ..v },
        IssuedToken {
            token_type: "Bearer"@,
            expires_in: 604800,
            access_token: access,
            refresh_token: mock_token_text("refresh"@, refresh_number),
            scopes: granted_scopes(),
        },
    )
}

/// `POST /oauth/token` as a transition: a pending code is consumed and
/// exchanged for the access token numbered `access_number` (and the refresh
/// token numbered `refresh_number`) for its CID; a missing or unknown code
/// is refused and nothing changes.
pub open spec fn token_spec(
    v: MockStateView,
    code: Option<Seq<char>>,
    access_number: u64,
    refresh_number: u64,
) -> (MockStateView, Result<IssuedToken, OAuthFailure>) {
    let (v1, redeemed) = redeem_spec(v, code);
    match redeemed {
        Err(e) => (v1, Err(e)),
        Ok(cid) => {
            let (v2, t) = issue_tokens_spec(v1, cid, access_number, refresh_number);
            (v2, Ok(t))
        },
    }
}

/// The first step of `POST /oauth/token`: consumes the pending code and
/// gives its CID. See [`redeem_spec`].
pub fn redeem(state: &mut MockState, code: Option<&str>) -> (r: Result<
    CertificateId,
    (u16, OAuthError),
>)
    ensures
        (final(state)@, cid_view(r)) == redeem_spec(old(state)@, opt_text(code)),
{
    let code = match code {
        Some(c) => c,
        None => {
            return Err(
                oauth_error(400, "invalid_request", String::from_str("Missing `code` parameter")),
            );
        },
    };
    let ghost before = state@;
    match state.redeem_code(code) {
        Some(c) => Ok(c),
        None => {
            proof {
                crate::mock::state::lemma_without_absent_key::<Grant>(
                    before.auth_codes,
                    KeyView::Name(code@),
                );
                assert(state@ =~= before);
            }
            Err(
                oauth_error(
                    400,
                    "invalid_grant",
                    String::from_str("Authorization code is invalid or has already been used"),
                ),
            )
        },
    }
}

/// The second step of `POST /oauth/token`: issues the access and refresh
/// tokens with the given numbers to `cid`. See [`issue_tokens_spec`].
pub fn issue_tokens(
    state: &mut MockState,
    cid: CertificateId,
    access_number: u64,
    refresh_number: u64,
) -> (r: TokenResponse)
    ensures
        (final(state)@, issued_view(r)) == issue_tokens_spec(
            old(state)@,
            cid@,
            access_number,
            refresh_number,
        ),
{
    let access_token = generate_mock_token("access", access_number);
    let refresh_token = generate_mock_token("refresh", refresh_number);
    state.add_access_token(access_token.clone(), cid);
    let mut scopes: Vec<String> = Vec::new();
    scopes.push(String::from_str("full_name"));
    scopes.push(String::from_str("email"));
    scopes.push(String::from_str("vatsim_details"));
    scopes.push(String::from_str("country"));
    let r = TokenResponse {
        token_type: String::from_str("Bearer"),
        expires_in: 604800,
        access_token,
        refresh_token,
        scopes,
    };
    assert(r.scopes@.map_values(|x: String| x@) =~= granted_scopes());
    r
}

/// `POST /oauth/token`: exchanges an authorization code for the access
/// token numbered `access_number` and the refresh token numbered
/// `refresh_number`. Client credentials are not checked; only the code is.
/// See [`token_spec`]; a caller that draws numbers from a counter only as
/// they are used calls [`redeem`] and [`issue_tokens`] in turn.
pub fn token(
    state: &mut MockState,
    code: Option<&str>,
    access_number: u64,
    refresh_number: u64,
) -> (r: Result<TokenResponse, (u16, OAuthError)>)
    ensures
        (final(state)@, token_view(r)) == token_spec(
            old(state)@,
            opt_text(code),
            access_number,
            refresh_number,
        ),
{
    let cid = match redeem(state, code) {
        Ok(c) => c,
        Err(e) => {
            return Err(e);
        },
    };
    Ok(issue_tokens(state, cid, access_number, refresh_number))
}

/// The token of an `Authorization` header value: what follows `Bearer `.
pub open spec fn bearer_token(header: Option<Seq<char>>) -> Option<Seq<char>> {
    match header {
        Some(h) => if h.len() >= 7 && h.take(7) == "Bearer "@ {
            Some(h.skip(7))
        } else {
            None
        },
        None => None,
    }
}

/// The outcome of a user request, taken by the user it gives.
pub open spec fn user_view(r: Result<ConnectUserResponse, (u16, OAuthError)>) -> Result<
    ConnectUser,
    OAuthFailure,
> {
    match r {
        Ok(u) => Ok(u.data),
        Err(e) => Err(failure_view(e)),
    }
}

/// The description when an access token's user is gone.
pub open spec fn missing_user_text(cid: u32) -> Seq<char> {
    "User with CID "@ + decimal_text(cid as nat) + " not found in mock state"@
}

/// `GET /api/user` as a function of the state and the `Authorization`
/// header: the user an issued bearer token belongs to.
pub open spec fn get_user_spec(v: MockStateView, authorization: Option<Seq<char>>) -> Result<
    ConnectUser,
    OAuthFailure,
> {
    match bearer_token(authorization) {
        None => Err(failure(401, "invalid_request"@, "Missing or malformed Authorization header"@)),
        Some(t) => match grant_cid(v.access_tokens, t) {
            None => Err(failure(401, "invalid_grant"@, "Access token is invalid or expired"@)),
            Some(cid) => match lookup::<ConnectUser>(v.data.users, KeyView::Cid(cid)) {
                None => Err(failure(500, "server_error"@, missing_user_text(cid))),
                Some(u) => Ok(u),
            },
        },
    }
}

/// The token of an `Authorization` header value, if it is a bearer token.
fn strip_bearer(header: &str) -> (r: Option<String>)
    ensures
        match r {
            Some(t) => bearer_token(Some(header@)) == Some(t@),
            None => bearer_token(Some(header@)) is None,
        },
{
    let cs = chars_of(header);
    proof {
        reveal_strlit("Bearer ");
    }
    if cs.len() < 7 {
        return None;
    }
    let head = sub_chars(&cs, 0, 7);
    assert(head@ =~= header@.take(7));
    if !chars_eq_str(&head, "Bearer ") {
        return None;
    }
    let rest = sub_chars(&cs, 7, cs.len());
    assert(rest@ =~= header@.skip(7));
    Some(string_of(&rest))
}

/// `GET /api/user`: the details of the user the bearer token in the
/// `Authorization` header belongs to. See [`get_user_spec`].
pub fn get_user(state: &MockState, authorization: Option<&str>) -> (r: Result<
    ConnectUserResponse,
    (u16, OAuthError),
>)
    ensures
        user_view(r) == get_user_spec(state@, opt_text(authorization)),
{
    let token = match authorization {
        Some(h) => strip_bearer(h),
        None => None,
    };
    let token = match token {
        Some(t) => t,
        None => {
            return Err(
                oauth_error(
                    401,
                    "invalid_request",
                    String::from_str("Missing or malformed Authorization header"),
                ),
            );
        },
    };
    let cid = match state.access_token_cid(token.as_str()) {
        Some(c) => c,
        None => {
            return Err(
                oauth_error(
                    401,
                    "invalid_grant",
                    String::from_str("Access token is invalid or expired"),
                ),
            );
        },
    };
    match state.user(cid) {
        Some(u) => Ok(ConnectUserResponse { data: u.clone() }),
        None => {
            let mut d = String::from_str("User with CID ");
            let digits = string_of(&decimal_chars(cid.get()));
            d.append(digits.as_str());
            d.append(" not found in mock state");
            Err(oauth_error(500, "server_error", d))
        },
    }
}


/// Mock tokens with the same prefix and different numbers differ.
pub proof fn lemma_mock_tokens_distinct(prefix: Seq<char>, a: u64, b: u64)
    requires
        a != b,
    ensures
        mock_token_text(prefix, a) != mock_token_text(prefix, b),
{
    let k: int = 6 + prefix.len() as int;
    let ta = mock_token_text(prefix, a);
    let tb = mock_token_text(prefix, b);
    reveal_strlit("mock_");
    reveal_strlit("_");
    if ta == tb {
        assert(ta.skip(k) =~= hex_text(a as nat, 16));
        assert(tb.skip(k) =~= hex_text(b as nat, 16));
        assert(crate::number::pow16(16) == 0x1_0000_0000_0000_0000nat) by {
            reveal_with_fuel(crate::number::pow16, 17);
        }
        crate::number::lemma_hex_text_injective(a as nat, b as nat, 16);
    }
}

/// `Bearer ` followed by a token is read back as that token.
pub proof fn lemma_bearer_header(t: Seq<char>)
    ensures
        bearer_token(Some("Bearer "@ + t)) == Some(t),
{
    reveal_strlit("Bearer ");
    assert(("Bearer "@ + t).take(7) =~= "Bearer "@);
    assert(("Bearer "@ + t).skip(7) =~= t);
}

/// The whole flow: when an authorization can choose a user, the code it
/// issues is exchanged for an access token, and that token, sent as a
/// bearer token, gives the chosen user.
pub proof fn lemma_authorization_flow(
    v: MockStateView,
    redirect_uri: Seq<char>,
    csrf_state: Option<Seq<char>>,
    login_hint: Option<Seq<char>>,
    code_number: u64,
    access_number: u64,
    refresh_number: u64,
)
    requires
        chosen_cid(v.data.users, login_hint) is Ok,
    ensures
        ({
            let cid = chosen_cid(v.data.users, login_hint)->Ok_0;
            let v1 = authorize_spec(v, redirect_uri, csrf_state, login_hint, code_number).0;
            let code = mock_token_text("code"@, code_number);
            let (v2, issued) = token_spec(v1, Some(code), access_number, refresh_number);
            &&& issued is Ok
            &&& get_user_spec(v2, Some("Bearer "@ + issued->Ok_0.access_token)) matches Ok(u)
                && u.cid@ == cid
                && u == lookup::<ConnectUser>(v.data.users, KeyView::Cid(cid))->0
        }),
{
    let cid = chosen_cid(v.data.users, login_hint)->Ok_0;
    let code = mock_token_text("code"@, code_number);
    let v1 = authorize_spec(v, redirect_uri, csrf_state, login_hint, code_number).0;
    crate::mock::store::lemma_lookup_upserted::<Grant>(v.auth_codes, (code, cid));
    assert(grant_cid(v1.auth_codes, code) == Some(cid));
    let access = mock_token_text("access"@, access_number);
    let v2 = token_spec(v1, Some(code), access_number, refresh_number).0;
    let v1r = redeem_spec(v1, Some(code)).0;
    crate::mock::store::lemma_lookup_upserted::<Grant>(v1r.access_tokens, (access, cid));
    assert(grant_cid(v2.access_tokens, access) == Some(cid));
    lemma_bearer_header(access);
    if login_hint is None {
        crate::mock::store::lemma_lookup_finds::<ConnectUser>(v.data.users, 0);
    }
    crate::mock::store::lemma_lookup_has_key::<ConnectUser>(v.data.users, KeyView::Cid(cid));
}

/// An authorization code is good for one exchange: once exchanged, the same
/// code is refused, whatever token numbers the second exchange would use.
pub proof fn lemma_code_single_use(
    v: MockStateView,
    code: Seq<char>,
    access_number: u64,
    refresh_number: u64,
    second_access: u64,
    second_refresh: u64,
)
    requires
        token_spec(v, Some(code), access_number, refresh_number).1 is Ok,
    ensures
        token_spec(
            token_spec(v, Some(code), access_number, refresh_number).0,
            Some(code),
            second_access,
            second_refresh,
        ).1 == Err::<IssuedToken, OAuthFailure>(
            failure(400, "invalid_grant"@, "Authorization code is invalid or has already been used"@),
        ),
{
    crate::mock::store::lemma_without_key_lacks::<Grant>(v.auth_codes, KeyView::Name(code));
}

/// After a reset, no code can be exchanged and no token gives a user.
pub proof fn lemma_reset_refuses(
    v: MockStateView,
    code: Option<Seq<char>>,
    access_number: u64,
    refresh_number: u64,
    authorization: Option<Seq<char>>,
)
    ensures
        token_spec(crate::mock::state::reset_spec(v), code, access_number, refresh_number).1 is Err,
        get_user_spec(crate::mock::state::reset_spec(v), authorization) is Err,
{
}

/// No two pending codes are alike, and no two issued tokens are alike: each
/// names one CID, as in a map from token to CID.
pub open spec fn grants_unique(v: MockStateView) -> bool {
    &&& keys_unique::<Grant>(v.auth_codes)
    &&& keys_unique::<Grant>(v.access_tokens)
}

/// Authorizing, exchanging a code for tokens, and resetting each keep every
/// pending code and every issued token naming exactly one CID.
pub proof fn lemma_grants_stay_unique(
    v: MockStateView,
    redirect_uri: Seq<char>,
    csrf_state: Option<Seq<char>>,
    login_hint: Option<Seq<char>>,
    code_number: u64,
    code: Option<Seq<char>>,
    access_number: u64,
    refresh_number: u64,
)
    requires
        grants_unique(v),
    ensures
        grants_unique(authorize_spec(v, redirect_uri, csrf_state, login_hint, code_number).0),
        grants_unique(token_spec(v, code, access_number, refresh_number).0),
        grants_unique(reset_spec(v)),
{
    if let Ok(cid) = chosen_cid(v.data.users, login_hint) {
        lemma_upserted_keeps_keys_unique::<Grant>(
            v.auth_codes,
            (mock_token_text("code"@, code_number), cid),
        );
    }
    if let Some(c) = code {
        lemma_without_key_keeps_keys_unique::<Grant>(v.auth_codes, KeyView::Name(c));
        if let Some(cid) = grant_cid(v.auth_codes, c) {
            lemma_upserted_keeps_keys_unique::<Grant>(
                v.access_tokens,
                (mock_token_text("access"@, access_number), cid),
            );
        }
    }
}

} // verus!
