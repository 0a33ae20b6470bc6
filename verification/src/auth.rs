//! Getting an access token: with a refresh token from an earlier time, or by
//! asking the user in the browser (authorization code with proof of
//! possession, RFC 7636).

use crate::pairs::{pair, pair_views};
use crate::query::{
    address_with_query, form_pairs, form_text, form_text_keeps_safe_characters, is_form_safe_char,
    is_plain_address, query_pairs, url_query,
};
use crate::text::{concatenated, is_white_space, trimmed, trimming_unpacks};
use base64::engine::general_purpose::URL_SAFE_NO_PAD;
use base64::Engine;
use rand::distr::Alphanumeric;
use rand::RngExt;
use sha2::{Digest, Sha256};
use vstd::prelude::*;
use vstd::utf8::encode_utf8;

verus! {

/// Where Spotify sends the browser after the user has agreed.
pub const REDIRECT_URI: &'static str = "http://127.0.0.1:8888/callback";

/// Where the browser is waited for: the host and port of `REDIRECT_URI`.
pub const CALLBACK_ADDRESS: &'static str = "127.0.0.1:8888";

/// Where forms are exchanged for tokens.
pub const TOKEN_URL: &'static str = "https://accounts.spotify.com/api/token";

/// The file that keeps the refresh token.
pub const TOKEN_PATH: &'static str = "refresh_token";

/// What the browser shows after it has come back.
pub const CALLBACK_PAGE: &'static str = "Spotify authorization complete. You can close this browser window.";

/// What Spotify gives for a form.
#[derive(Debug, Clone)]
pub struct SpotifyToken {
    pub access_token: String,
    pub scope: String,
    pub expires_in: u64,
    pub refresh_token: Option<String>,
}

/// Why there is no access token.
#[derive(Debug)]
pub enum AuthError {
    /// The browser came back with an address that is none.
    InvalidUrl { error: url::ParseError },
    /// The browser came back without an authorization code.
    NoCode,
    /// Spotify gave an access token but no refresh token.
    NoRefreshToken,
}

impl AuthError {
    /// Whether the browser still gets its page: not when it asked for an
    /// address that is none.
    pub fn answers_browser(&self) -> (answers: bool)
        ensures
            answers == !(*self is InvalidUrl),
    {
        match self {
            AuthError::InvalidUrl { .. } => false,
            _ => true,
        }
    }

    /// The text that the user sees; none where the address itself says what is
    /// wrong with it.
    pub fn message(&self) -> (text: Option<&'static str>)
        ensures
            match *self {
                AuthError::InvalidUrl { error } => text is None,
                AuthError::NoCode => text is Some && text->0@
                    == "Spotify did not return an authorization code"@,
                AuthError::NoRefreshToken => text is Some && text->0@
                    == "Spotify did not return a refresh token"@,
            },
    {
        match self {
            AuthError::InvalidUrl { .. } => None,
            AuthError::NoCode => Some("Spotify did not return an authorization code"),
            AuthError::NoRefreshToken => Some("Spotify did not return a refresh token"),
        }
    }
}

pub open spec fn is_alphanumeric(c: char) -> bool {
    'A' <= c <= 'Z' || 'a' <= c <= 'z' || '0' <= c <= '9'
}

/// 64 letters and digits.
pub open spec fn is_code_verifier(text: Seq<char>) -> bool {
    &&& text.len() == 64
    &&& forall|i: int| 0 <= i < text.len() ==> is_alphanumeric(#[trigger] text[i])
}

/// `Alphanumeric` of rand, sampled from the generator of the thread: one of
/// the 62 ASCII letters and digits. Which one is left to chance.
#[verifier::external_body]
fn random_alphanumeric() -> (c: char)
    ensures
        is_alphanumeric(c),
{
    char::from(rand::rng().sample(Alphanumeric))
}

/// Makes up a secret for one authorization.
pub fn generate_code_verifier() -> (verifier: String)
    ensures
        is_code_verifier(verifier@),
{
    let mut verifier = String::new();
    for i in 0..64usize
        invariant
            verifier@.len() == i,
            forall|j: int| 0 <= j < verifier@.len() ==> is_alphanumeric(#[trigger] verifier@[j]),
    {
        verifier.push(random_alphanumeric());
    }
    verifier
}

/// The SHA-256 digest of some bytes.
pub uninterp spec fn sha256(data: Seq<u8>) -> Seq<u8>;

/// `Sha256::digest` of sha2: the digest, which has 32 bytes.
#[verifier::external_body]
fn sha256_digest(data: &[u8]) -> (digest: Vec<u8>)
    ensures
        digest@ == sha256(data@),
        digest@.len() == 32,
{
    Sha256::digest(data).to_vec()
}

/// The sign for the six bits `v` in the URL safe alphabet of base64.
pub open spec fn base64_sign(v: int) -> char {
    if v < 26 {
        (0x41 + v) as char
    } else if v < 52 {
        (0x61 + v - 26) as char
    } else if v < 62 {
        (0x30 + v - 52) as char
    } else if v == 62 {
        '-'
    } else {
        '_'
    }
}

/// The byte at `i`, zero beyond the end.
pub open spec fn byte_at(data: Seq<u8>, i: int) -> int {
    if i < data.len() {
        data[i] as int
    } else {
        0
    }
}

/// The `k`th group of six bits.
pub open spec fn six_bits(data: Seq<u8>, k: int) -> int {
    let first = byte_at(data, k / 4 * 3);
    let second = byte_at(data, k / 4 * 3 + 1);
    let third = byte_at(data, k / 4 * 3 + 2);
    if k % 4 == 0 {
        first / 4
    } else if k % 4 == 1 {
        first % 4 * 16 + second / 16
    } else if k % 4 == 2 {
        second % 16 * 4 + third / 64
    } else {
        third % 64
    }
}

/// Base64 in the URL safe alphabet, without padding: a sign for every six bits
/// that have begun.
pub open spec fn base64_url(data: Seq<u8>) -> Seq<char> {
    Seq::new(((data.len() * 4 + 2) / 3) as nat, |k: int| base64_sign(six_bits(data, k)))
}

/// `Engine::encode` of base64, with the engine `URL_SAFE_NO_PAD`.
#[verifier::external_body]
fn base64_encode(data: &Vec<u8>) -> (text: String)
    requires
        data@.len() * 4 <= isize::MAX,
    ensures
        text@ == base64_url(data@),
{
    URL_SAFE_NO_PAD.encode(data)
}

/// The challenge that belongs to a secret.
pub open spec fn code_challenge(verifier: Seq<char>) -> Seq<char> {
    base64_url(sha256(encode_utf8(verifier)))
}

/// Writes a digest as a challenge.
pub fn challenge_of_digest(digest: &Vec<u8>) -> (challenge: String)
    requires
        digest@.len() * 4 <= isize::MAX,
    ensures
        challenge@ == base64_url(digest@),
{
    base64_encode(digest)
}

/// Computes the challenge that belongs to a secret (method `S256`).
pub fn generate_code_challenge(verifier: &str) -> (challenge: String)
    ensures
        challenge@ == code_challenge(verifier@),
        challenge@.len() == 43,
{
    let hash = sha256_digest(verifier.as_bytes());
    challenge_of_digest(&hash)
}

/// What the browser is asked to ask for.
pub open spec fn authorization_query(client_id: Seq<char>, challenge: Seq<char>) -> Seq<
    (Seq<char>, Seq<char>),
> {
    seq![
        ("response_type"@, "code"@),
        ("client_id"@, client_id),
        (
            "scope"@,
            "user-read-playback-state user-modify-playback-state user-read-recently-played"@,
        ),
        ("code_challenge_method"@, "S256"@),
        ("code_challenge"@, challenge),
        ("redirect_uri"@, REDIRECT_URI@),
    ]
}

/// The address that the user's browser is sent to.
pub open spec fn authorization_url(client_id: Seq<char>, challenge: Seq<char>) -> Seq<char> {
    "https://accounts.spotify.com/authorize"@ + "?"@ + form_pairs(
        authorization_query(client_id, challenge),
    )
}

/// The address that the user's browser is sent to.
pub fn build_authorization_url(client_id: &str, challenge: &str) -> (url: String)
    ensures
        url@ == authorization_url(client_id@, challenge@),
{
    let address = "https://accounts.spotify.com/authorize";
    let pairs: Vec<(String, String)> = vec![
        pair("response_type", "code"),
        pair("client_id", client_id),
        pair(
            "scope",
            "user-read-playback-state user-modify-playback-state user-read-recently-played",
        ),
        pair("code_challenge_method", "S256"),
        pair("code_challenge", challenge),
        pair("redirect_uri", REDIRECT_URI),
    ];
    proof {
        reveal_strlit("https://accounts.spotify.com/authorize");
        reveal_strlit("https://");
        reveal_strlit("/");
        reveal_strlit("accounts.spotify.com");
        reveal_strlit("authorize");
        assert(address@ =~= "https://"@ + "accounts.spotify.com"@ + "/"@ + "authorize"@);
        assert(is_plain_address(address@, "accounts.spotify.com"@, "authorize"@));
        assert(pair_views(pairs@) =~= authorization_query(client_id@, challenge@));
    }
    address_with_query(address, &pairs)
}

/// The first value named `code`.
pub open spec fn first_code(pairs: Seq<(Seq<char>, Seq<char>)>) -> Option<Seq<char>>
    decreases pairs.len(),
{
    if pairs.len() == 0 {
        None
    } else if pairs[0].0 == "code"@ {
        Some(pairs[0].1)
    } else {
        first_code(pairs.drop_first())
    }
}

/// Finds the first value named `code`.
pub fn find_code(pairs: &Vec<(String, String)>) -> (code: Option<String>)
    ensures
        match code {
            Some(code) => first_code(pair_views(pairs@)) == Some(code@),
            None => first_code(pair_views(pairs@)) is None,
        },
{
    let name = "code".to_owned();
    let ghost views = pair_views(pairs@);
    proof {
        assert(views.skip(0) =~= views);
    }
    for i in 0..pairs.len()
        invariant
            views == pair_views(pairs@),
            name@ == "code"@,
            first_code(views) == first_code(views.skip(i as int)),
    {
        assert(views.skip(i as int)[0] == views[i as int]);
        if pairs[i].0 == name {
            return Some(pairs[i].1.clone());
        }
        assert(views.skip(i as int).drop_first() =~= views.skip(i as int + 1));
    }
    None
}

/// A text by its characters, or the error in its place.
pub open spec fn code_view(code: Result<String, AuthError>) -> Result<Seq<char>, AuthError> {
    match code {
        Ok(code) => Ok(code@),
        Err(error) => Err(error),
    }
}

/// The code among the named values that came with the browser, or the error
/// that there is none.
pub open spec fn code_among(pairs: Seq<(Seq<char>, Seq<char>)>) -> Result<Seq<char>, AuthError> {
    match first_code(pairs) {
        Some(code) => Ok(code),
        None => Err(AuthError::NoCode),
    }
}

/// The authorization code in what the browser asks for when it comes back.
pub open spec fn callback_code(target: Seq<char>) -> Result<Seq<char>, AuthError> {
    match url_query("http://127.0.0.1"@ + target) {
        Ok(pairs) => code_among(pairs),
        Err(error) => Err(AuthError::InvalidUrl { error }),
    }
}

/// What a browser asks for that Spotify sent back with the named values.
pub open spec fn is_callback(target: Seq<char>, sent: Seq<(Seq<char>, Seq<char>)>) -> bool {
    target == "/callback?"@ + form_pairs(sent) && target.len() <= 0xffff_0000
}

/// Reads the authorization code from what the browser asks for when it comes
/// back, such as `/callback?code=...`.
pub fn authorization_code(target: &str) -> (code: Result<String, AuthError>)
    ensures
        code_view(code) == callback_code(target@),
        forall|sent: Seq<(Seq<char>, Seq<char>)>| #[trigger]
            is_callback(target@, sent) ==> code_view(code) == code_among(sent),
{
    let text = concatenated("http://127.0.0.1", target);
    proof {
        reveal_strlit("http://127.0.0.1");
        reveal_strlit("/callback?");
        reveal_strlit("http://127.0.0.1/callback?");
        assert("http://127.0.0.1"@ + "/callback?"@ =~= "http://127.0.0.1/callback?"@);
        assert forall|sent: Seq<(Seq<char>, Seq<char>)>|
            #[trigger] is_callback(target@, sent) implies text@ == "http://127.0.0.1/callback?"@
            + form_pairs(sent) by {
            assert(text@ =~= "http://127.0.0.1"@ + "/callback?"@ + form_pairs(sent));
        }
    }
    match query_pairs(text.as_str()) {
        Ok(pairs) => match find_code(&pairs) {
            Some(code) => Ok(code),
            None => Err(AuthError::NoCode),
        },
        Err(error) => Err(AuthError::InvalidUrl { error }),
    }
}

/// The form that asks for tokens in exchange for an authorization code.
pub open spec fn exchange_form_view(
    client_id: Seq<char>,
    code: Seq<char>,
    verifier: Seq<char>,
) -> Seq<(Seq<char>, Seq<char>)> {
    seq![
        ("grant_type"@, "authorization_code"@),
        ("code"@, code),
        ("redirect_uri"@, REDIRECT_URI@),
        ("client_id"@, client_id),
        ("code_verifier"@, verifier),
    ]
}

/// The form that asks for tokens in exchange for an authorization code.
pub fn exchange_form(client_id: &str, code: &str, verifier: &str) -> (form: Vec<(String, String)>)
    ensures
        pair_views(form@) == exchange_form_view(client_id@, code@, verifier@),
{
    let form: Vec<(String, String)> = vec![
        pair("grant_type", "authorization_code"),
        pair("code", code),
        pair("redirect_uri", REDIRECT_URI),
        pair("client_id", client_id),
        pair("code_verifier", verifier),
    ];
    assert(pair_views(form@) =~= exchange_form_view(client_id@, code@, verifier@));
    form
}

/// The form that asks for tokens in exchange for a refresh token.
pub open spec fn refresh_form_view(client_id: Seq<char>, refresh_token: Seq<char>) -> Seq<
    (Seq<char>, Seq<char>),
> {
    seq![
        ("grant_type"@, "refresh_token"@),
        ("refresh_token"@, refresh_token),
        ("client_id"@, client_id),
    ]
}

/// The form that asks for tokens in exchange for a refresh token.
pub fn refresh_form(client_id: &str, refresh_token: &str) -> (form: Vec<(String, String)>)
    ensures
        pair_views(form@) == refresh_form_view(client_id@, refresh_token@),
{
    let form: Vec<(String, String)> = vec![
        pair("grant_type", "refresh_token"),
        pair("refresh_token", refresh_token),
        pair("client_id", client_id),
    ];
    assert(pair_views(form@) =~= refresh_form_view(client_id@, refresh_token@));
    form
}

/// What is to be done next to get an access token.
#[derive(Debug)]
pub enum AuthStep {
    /// Send the form; it holds a refresh token.
    Refresh { form: Vec<(String, String)> },
    /// Listen at the address that the browser will come back to. Nothing is
    /// opened yet.
    Listen { url: String, verifier: String },
    /// Open the address in the browser and wait for it to come back.
    Authorize { url: String, verifier: String },
    /// Send the form; it holds an authorization code.
    Exchange { form: Vec<(String, String)> },
    /// Store the refresh token, if there is one to store, and use the access
    /// token.
    Finish { save: Option<String>, access_token: String },
    /// Give up.
    Fail { error: AuthError },
}

/// What came of a step.
#[derive(Debug, Clone)]
pub enum AuthEvent {
    /// Spotify answered a form.
    Token { token: SpotifyToken },
    /// The address that the browser will come back to is listened at.
    Listening,
    /// The browser came back and asked for `target`.
    Callback { target: String },
}

#[verifier::ext_equal]
pub enum AuthStepView {
    Refresh { form: Seq<(Seq<char>, Seq<char>)> },
    Listen { url: Seq<char>, verifier: Seq<char> },
    Authorize { url: Seq<char>, verifier: Seq<char> },
    Exchange { form: Seq<(Seq<char>, Seq<char>)> },
    Finish { save: Option<Seq<char>>, access_token: Seq<char> },
    Fail { error: AuthError },
}

pub open spec fn optional_text(text: Option<String>) -> Option<Seq<char>> {
    match text {
        Some(text) => Some(text@),
        None => None,
    }
}

impl View for AuthStep {
    type V = AuthStepView;

    open spec fn view(&self) -> AuthStepView {
        match *self {
            AuthStep::Refresh { form } => AuthStepView::Refresh { form: pair_views(form@) },
            AuthStep::Listen { url, verifier } => AuthStepView::Listen {
                url: url@,
                verifier: verifier@,
            },
            AuthStep::Authorize { url, verifier } => AuthStepView::Authorize {
                url: url@,
                verifier: verifier@,
            },
            AuthStep::Exchange { form } => AuthStepView::Exchange { form: pair_views(form@) },
            AuthStep::Finish { save, access_token } => AuthStepView::Finish {
                save: optional_text(save),
                access_token: access_token@,
            },
            AuthStep::Fail { error } => AuthStepView::Fail { error },
        }
    }
}

/// The step that sends a stored refresh token.
pub open spec fn stored_step(client_id: Seq<char>, stored: Seq<char>) -> AuthStepView {
    AuthStepView::Refresh { form: refresh_form_view(client_id, trimmed(stored)) }
}

/// The step that listens for the browser before it is sent anywhere; the address
/// it will be sent to has the challenge that belongs to the secret.
pub open spec fn listen_step(client_id: Seq<char>, verifier: Seq<char>) -> AuthStepView {
    AuthStepView::Listen {
        url: authorization_url(client_id, code_challenge(verifier)),
        verifier,
    }
}

/// The step that exchanges the code that came with the browser, or gives up
/// without one.
pub open spec fn exchange_step(
    client_id: Seq<char>,
    code: Result<Seq<char>, AuthError>,
    verifier: Seq<char>,
) -> AuthStepView {
    match code {
        Ok(code) => AuthStepView::Exchange {
            form: exchange_form_view(client_id, code, verifier),
        },
        Err(error) => AuthStepView::Fail { error },
    }
}

/// The step that follows `step` when `event` has happened. An event that does
/// not belong to the step changes nothing.
pub open spec fn auth_step(step: AuthStepView, client_id: Seq<char>, event: AuthEvent) -> AuthStepView {
    match (step, event) {
        (AuthStepView::Refresh { form }, AuthEvent::Token { token }) => AuthStepView::Finish {
            save: optional_text(token.refresh_token),
            access_token: token.access_token@,
        },
        (AuthStepView::Listen { url, verifier }, AuthEvent::Listening) => {
            AuthStepView::Authorize { url, verifier }
        },
        (AuthStepView::Authorize { url, verifier }, AuthEvent::Callback { target }) => {
            exchange_step(client_id, callback_code(target@), verifier)
        },
        (AuthStepView::Exchange { form }, AuthEvent::Token { token }) => {
            match token.refresh_token {
                Some(refresh_token) => AuthStepView::Finish {
                    save: Some(refresh_token@),
                    access_token: token.access_token@,
                },
                None => AuthStepView::Fail { error: AuthError::NoRefreshToken },
            }
        },
        (step, event) => step,
    }
}

impl AuthStep {
    /// The first step: with the contents of the token file where there is one,
    /// with a new secret otherwise.
    pub fn begin(client_id: &str, stored: Option<String>) -> (step: AuthStep)
        ensures
            stored matches Some(token) ==> step@ == stored_step(client_id@, token@),
            match stored {
                Some(token) => step@ == (AuthStepView::Refresh {
                    form: refresh_form_view(client_id@, trimmed(token@)),
                }),
                None => step is Listen && is_code_verifier(step->Listen_verifier@) && step@
                    == listen_step(client_id@, step->Listen_verifier@),
            },
    {
        match stored {
            Some(token) => AuthStep::Refresh {
                form: refresh_form(client_id, token.as_str().trim()),
            },
            None => AuthStep::authorize(client_id, generate_code_verifier()),
        }
    }

    /// Listens for the browser, which is then to be sent to the address with the
    /// challenge that belongs to the secret.
    pub fn authorize(client_id: &str, verifier: String) -> (step: AuthStep)
        ensures
            step@ == listen_step(client_id@, verifier@),
    {
        let challenge = generate_code_challenge(verifier.as_str());
        let url = build_authorization_url(client_id, challenge.as_str());
        AuthStep::Listen { url, verifier }
    }

    /// Exchanges the code that came with the browser, or gives up without one.
    pub fn exchange(client_id: &str, code: Result<String, AuthError>, verifier: &str) -> (step:
        AuthStep)
        ensures
            step@ == exchange_step(client_id@, code_view(code), verifier@),
    {
        match code {
            Ok(code) => AuthStep::Exchange {
                form: exchange_form(client_id, code.as_str(), verifier),
            },
            Err(error) => AuthStep::Fail { error },
        }
    }

    /// Takes in what came of the step.
    pub fn next(self, client_id: &str, event: AuthEvent) -> (next: AuthStep)
        ensures
            next@ == auth_step(self@, client_id@, event),
            self@ matches AuthStepView::Authorize { url, verifier } ==> event matches
                AuthEvent::Callback { target } ==> forall|sent: Seq<(Seq<char>, Seq<char>)>|
                #[trigger] is_callback(target@, sent) ==> next@ == exchange_step(
                    client_id@,
                    code_among(sent),
                    verifier,
                ),
    {
        match (self, event) {
            (AuthStep::Refresh { .. }, AuthEvent::Token { token }) => AuthStep::Finish {
                save: token.refresh_token,
                access_token: token.access_token,
            },
            (AuthStep::Listen { url, verifier }, AuthEvent::Listening) => AuthStep::Authorize {
                url,
                verifier,
            },
            (AuthStep::Authorize { verifier, .. }, AuthEvent::Callback { target }) => {
                let code = authorization_code(target.as_str());
                AuthStep::exchange(client_id, code, verifier.as_str())
            },
            (AuthStep::Exchange { .. }, AuthEvent::Token { token }) => {
                match token.refresh_token {
                    Some(refresh_token) => AuthStep::Finish {
                        save: Some(refresh_token),
                        access_token: token.access_token,
                    },
                    None => AuthStep::Fail { error: AuthError::NoRefreshToken },
                }
            },
            (step, _) => step,
        }
    }
}

/// A challenge stands in an address as it is: none of its signs has to be
/// encoded.
pub proof fn challenge_needs_no_encoding(verifier: Seq<char>)
    ensures
        form_text(code_challenge(verifier)) == code_challenge(verifier),
{
    let challenge = code_challenge(verifier);
    assert forall|i: int| 0 <= i < challenge.len() implies is_form_safe_char(
        #[trigger] challenge[i],
    ) by {
        assert(challenge[i] == base64_sign(six_bits(sha256(encode_utf8(verifier)), i)));
    }
    form_text_keeps_safe_characters(challenge);
}

/// So does a secret in a form.
pub proof fn verifier_needs_no_encoding(verifier: Seq<char>)
    requires
        is_code_verifier(verifier),
    ensures
        form_text(verifier) == verifier,
{
    form_text_keeps_safe_characters(verifier);
}

/// The secret that goes with the code is the one whose challenge went with the
/// browser, and both times the same client and the same way back were named.
pub proof fn exchange_proves_possession(client_id: Seq<char>, verifier: Seq<char>, target: String)
    ensures
        callback_code(target@) matches Ok(code) ==> ({
            let asked = auth_step(
                listen_step(client_id, verifier),
                client_id,
                AuthEvent::Listening,
            );
            let exchange = auth_step(asked, client_id, AuthEvent::Callback { target });
            &&& asked->Authorize_url == authorization_url(client_id, code_challenge(verifier))
            &&& authorization_query(client_id, code_challenge(verifier)).contains(
                ("code_challenge"@, base64_url(sha256(encode_utf8(verifier)))),
            )
            &&& authorization_query(client_id, code_challenge(verifier)).contains(
                ("redirect_uri"@, REDIRECT_URI@),
            )
            &&& exchange is Exchange
            &&& exchange->Exchange_form.contains(("code"@, code))
            &&& exchange->Exchange_form.contains(("code_verifier"@, verifier))
            &&& exchange->Exchange_form.contains(("redirect_uri"@, REDIRECT_URI@))
            &&& exchange->Exchange_form.contains(("client_id"@, client_id))
        }),
{
    let query = authorization_query(client_id, code_challenge(verifier));
    let form = exchange_form_view(client_id, callback_code(target@)->Ok_0, verifier);
    assert(query[4] == ("code_challenge"@, base64_url(sha256(encode_utf8(verifier)))));
    assert(query[5] == ("redirect_uri"@, REDIRECT_URI@));
    assert(form[1] == ("code"@, callback_code(target@)->Ok_0));
    assert(form[2] == ("redirect_uri"@, REDIRECT_URI@));
    assert(form[3] == ("client_id"@, client_id));
    assert(form[4] == ("code_verifier"@, verifier));
}

/// With a stored refresh token one answer of Spotify suffices. A new refresh
/// token is stored; without one the stored token stays as it is.
pub proof fn refreshing_finishes(client_id: Seq<char>, stored: Seq<char>, token: SpotifyToken)
    ensures
        auth_step(
            AuthStepView::Refresh { form: refresh_form_view(client_id, trimmed(stored)) },
            client_id,
            AuthEvent::Token { token },
        ) == (AuthStepView::Finish {
            save: optional_text(token.refresh_token),
            access_token: token.access_token@,
        }),
{
}

/// A first authorization only succeeds with a refresh token to store.
pub proof fn first_authorization_stores_a_token(
    form: Seq<(Seq<char>, Seq<char>)>,
    client_id: Seq<char>,
    token: SpotifyToken,
)
    ensures
        auth_step(AuthStepView::Exchange { form }, client_id, AuthEvent::Token { token }) is Finish
            <==> token.refresh_token is Some,
        auth_step(
            AuthStepView::Exchange { form },
            client_id,
            AuthEvent::Token { token },
        ) matches AuthStepView::Finish { save, access_token } ==> save is Some && save
            == optional_text(token.refresh_token),
{
}

/// The step after a number of events.
pub open spec fn after_events(
    step: AuthStepView,
    client_id: Seq<char>,
    events: Seq<AuthEvent>,
) -> AuthStepView
    decreases events.len(),
{
    if events.len() == 0 {
        step
    } else {
        auth_step(after_events(step, client_id, events.drop_last()), client_id, events.last())
    }
}

/// The browser is not sent anywhere before its return is listened for: whatever
/// happens, a login gets to that step only after the event that says so.
pub proof fn the_browser_is_listened_for_first(
    step: AuthStepView,
    client_id: Seq<char>,
    events: Seq<AuthEvent>,
)
    requires
        step is Listen || step is Refresh,
    ensures
        after_events(step, client_id, events) matches AuthStepView::Authorize { url, verifier } ==> {
            &&& step == (AuthStepView::Listen { url, verifier })
            &&& events.contains(AuthEvent::Listening)
        },
    decreases events.len(),
{
    if events.len() > 0 && after_events(step, client_id, events) is Authorize {
        let before = events.drop_last();
        assert(events.last() == events[events.len() - 1]);
        if after_events(step, client_id, before) is Authorize {
            the_browser_is_listened_for_first(step, client_id, before);
            let i = choose|i: int| 0 <= i < before.len() && before[i] == AuthEvent::Listening;
            assert(events[i] == AuthEvent::Listening);
        } else {
            never_back_to_listening(step, client_id, before);
        }
    }
}

/// A login that listens has done nothing else before.
proof fn never_back_to_listening(
    step: AuthStepView,
    client_id: Seq<char>,
    events: Seq<AuthEvent>,
)
    ensures
        after_events(step, client_id, events) is Listen ==> after_events(step, client_id, events)
            == step,
    decreases events.len(),
{
    if events.len() > 0 {
        never_back_to_listening(step, client_id, events.drop_last());
    }
}

/// Whenever an answer with a token ends a login, the access token that the login
/// yields is the one in that answer, and the refresh token that is stored is the one
/// in that answer.
pub proof fn a_login_yields_the_token_it_was_given(
    step: AuthStepView,
    client_id: Seq<char>,
    token: SpotifyToken,
)
    requires
        step is Refresh || step is Exchange,
    ensures
        ({
            let next = auth_step(step, client_id, AuthEvent::Token { token });
            &&& step is Refresh ==> next is Finish
            &&& step is Exchange ==> (next is Finish <==> token.refresh_token is Some)
            &&& next is Finish ==> {
                &&& next->access_token == token.access_token@
                &&& next->save is Some <==> token.refresh_token is Some
                &&& token.refresh_token matches Some(kept) ==> next->save->0 == kept@
            }
            &&& !(next is Finish) ==> next == (AuthStepView::Fail {
                error: AuthError::NoRefreshToken,
            })
        }),
{
}

/// A login that has ended stays as it is.
pub proof fn logins_end(step: AuthStepView, client_id: Seq<char>, event: AuthEvent)
    requires
        step is Finish || step is Fail,
    ensures
        auth_step(step, client_id, event) == step,
{
}

/// Each step waits for its own event; any other leaves it as it is.
pub proof fn steps_wait_for_their_events(
    step: AuthStepView,
    client_id: Seq<char>,
    event: AuthEvent,
)
    requires
        step is Refresh || step is Exchange ==> !(event is Token),
        step is Listen ==> !(event is Listening),
        step is Authorize ==> !(event is Callback),
    ensures
        auth_step(step, client_id, event) == step,
{
}

/// When the browser can be listened for, it is sent to the address that was made up
/// for it, with the same secret in mind.
pub proof fn listening_sends_the_browser(
    url: Seq<char>,
    verifier: Seq<char>,
    client_id: Seq<char>,
)
    ensures
        auth_step(AuthStepView::Listen { url, verifier }, client_id, AuthEvent::Listening) == (
        AuthStepView::Authorize { url, verifier }),
{
}

/// When the browser comes back, the code that it brings is exchanged together with
/// the secret; without a code the login fails, for the reason that there is none.
pub proof fn the_code_that_came_is_exchanged(
    url: Seq<char>,
    verifier: Seq<char>,
    client_id: Seq<char>,
    target: String,
)
    ensures
        ({
            let next = auth_step(
                AuthStepView::Authorize { url, verifier },
                client_id,
                AuthEvent::Callback { target },
            );
            &&& callback_code(target@) matches Ok(code) ==> next is Exchange && next->Exchange_form
                == seq![
                ("grant_type"@, "authorization_code"@),
                ("code"@, code),
                ("redirect_uri"@, "http://127.0.0.1:8888/callback"@),
                ("client_id"@, client_id),
                ("code_verifier"@, verifier),
            ]
            &&& callback_code(target@) matches Err(error) ==> next == (AuthStepView::Fail { error })
        }),
{
}

/// The code in a callback is that of the first value named so in the query of the
/// address; an address that is none, and a query without one, are told apart.
pub proof fn the_code_of_a_callback(target: Seq<char>, k: int)
    ensures
        ({
            let query = url_query("http://127.0.0.1"@ + target);
            &&& query matches Err(error) ==> callback_code(target) == Err::<Seq<char>, AuthError>(
                AuthError::InvalidUrl { error },
            )
            &&& query matches Ok(pairs) ==> {
                &&& (0 <= k < pairs.len() && pairs[k].0 == "code"@ && forall|i: int|
                    0 <= i < k ==> (#[trigger] pairs[i]).0 != "code"@) ==> callback_code(target)
                    == Ok::<Seq<char>, AuthError>(pairs[k].1)
                &&& (forall|i: int| 0 <= i < pairs.len() ==> (#[trigger] pairs[i]).0 != "code"@)
                    ==> callback_code(target) == Err::<Seq<char>, AuthError>(AuthError::NoCode)
            }
        }),
{
    if let Ok(pairs) = url_query("http://127.0.0.1"@ + target) {
        if 0 <= k < pairs.len() && pairs[k].0 == "code"@ && forall|i: int|
            0 <= i < k ==> (#[trigger] pairs[i]).0 != "code"@ {
            the_first_code_counts(pairs, k);
        }
        if forall|i: int| 0 <= i < pairs.len() ==> (#[trigger] pairs[i]).0 != "code"@ {
            no_code_among(pairs);
        }
    }
}

/// Of several values named `code` the first counts.
pub proof fn the_first_code_counts(pairs: Seq<(Seq<char>, Seq<char>)>, k: int)
    requires
        0 <= k < pairs.len(),
        pairs[k].0 == "code"@,
        forall|i: int| 0 <= i < k ==> (#[trigger] pairs[i]).0 != "code"@,
    ensures
        first_code(pairs) == Some(pairs[k].1),
    decreases k,
{
    if k > 0 {
        assert(pairs[0].0 != "code"@);
        assert forall|i: int| 0 <= i < k - 1 implies (#[trigger] pairs.drop_first()[i]).0
            != "code"@ by {
            assert(pairs.drop_first()[i] == pairs[i + 1]);
        }
        the_first_code_counts(pairs.drop_first(), k - 1);
    }
}

/// Values that are named otherwise hold no code.
pub proof fn no_code_among(pairs: Seq<(Seq<char>, Seq<char>)>)
    requires
        forall|i: int| 0 <= i < pairs.len() ==> (#[trigger] pairs[i]).0 != "code"@,
    ensures
        first_code(pairs) is None,
    decreases pairs.len(),
{
    if pairs.len() > 0 {
        assert(pairs[0].0 != "code"@);
        assert forall|i: int| 0 <= i < pairs.drop_first().len() implies (
        #[trigger] pairs.drop_first()[i]).0 != "code"@ by {
            assert(pairs.drop_first()[i] == pairs[i + 1]);
        }
        no_code_among(pairs.drop_first());
    }
}

/// What the user is asked to allow, for whom, and where the answer goes.
pub proof fn what_the_user_is_asked(client_id: Seq<char>, verifier: Seq<char>)
    ensures
        ({
            let query = authorization_query(client_id, code_challenge(verifier));
            &&& query.len() == 6
            &&& query[0] == ("response_type"@, "code"@)
            &&& query[1] == ("client_id"@, client_id)
            &&& query[2] == (
                "scope"@,
                "user-read-playback-state user-modify-playback-state user-read-recently-played"@,
            )
            &&& query[3] == ("code_challenge_method"@, "S256"@)
            &&& query[4] == ("code_challenge"@, base64_url(sha256(encode_utf8(verifier))))
            &&& query[5] == ("redirect_uri"@, "http://127.0.0.1:8888/callback"@)
            &&& listen_step(client_id, verifier) == (AuthStepView::Listen {
                url: "https://accounts.spotify.com/authorize"@ + "?"@ + form_pairs(query),
                verifier,
            })
        }),
{
}

/// A stored refresh token is sent as it is, but for white space around it.
pub proof fn the_stored_token_is_sent(
    client_id: Seq<char>,
    before: Seq<char>,
    stored: Seq<char>,
    after: Seq<char>,
)
    requires
        forall|i: int| 0 <= i < before.len() ==> is_white_space(#[trigger] before[i]),
        forall|i: int| 0 <= i < after.len() ==> is_white_space(#[trigger] after[i]),
        stored.len() > 0 ==> !is_white_space(stored.first()) && !is_white_space(stored.last()),
    ensures
        stored_step(client_id, before + stored + after) == (AuthStepView::Refresh {
            form: seq![
                ("grant_type"@, "refresh_token"@),
                ("refresh_token"@, stored),
                ("client_id"@, client_id),
            ],
        }),
{
    trimming_unpacks(before, stored, after);
}

/// A secret has 64 signs, each a letter or a digit of ASCII.
pub proof fn secrets_are_long(verifier: Seq<char>)
    ensures
        is_code_verifier(verifier) <==> {
            &&& verifier.len() == 64
            &&& forall|i: int|
                0 <= i < verifier.len() ==> ('0' <= #[trigger] verifier[i] <= '9' || 'A'
                    <= verifier[i] <= 'Z' || 'a' <= verifier[i] <= 'z')
        },
{
}

/// The addresses and texts that are fixed.
pub proof fn fixed_addresses()
    ensures
        TOKEN_URL@ == "https://accounts.spotify.com/api/token"@,
        REDIRECT_URI@ == "http://127.0.0.1:8888/callback"@,
        REDIRECT_URI@ == "http://"@ + CALLBACK_ADDRESS@ + "/callback"@,
        TOKEN_PATH@ == "refresh_token"@,
        CALLBACK_PAGE@
            == "Spotify authorization complete. You can close this browser window."@,
{
    reveal_strlit("http://127.0.0.1:8888/callback");
    reveal_strlit("http://");
    reveal_strlit("127.0.0.1:8888");
    reveal_strlit("/callback");
    assert(REDIRECT_URI@ =~= "http://"@ + CALLBACK_ADDRESS@ + "/callback"@);
}

/// Nothing of a step is left out of its view.
pub proof fn steps_keep_their_parts(step: AuthStep)
    ensures
        step matches AuthStep::Refresh { form } ==> step@ == (AuthStepView::Refresh {
            form: pair_views(form@),
        }),
        step matches AuthStep::Exchange { form } ==> step@ == (AuthStepView::Exchange {
            form: pair_views(form@),
        }),
        step matches AuthStep::Listen { url, verifier } ==> step@ == (AuthStepView::Listen {
            url: url@,
            verifier: verifier@,
        }),
        step matches AuthStep::Authorize { url, verifier } ==> step@ == (AuthStepView::Authorize {
            url: url@,
            verifier: verifier@,
        }),
        step matches AuthStep::Finish { save, access_token } ==> step@ is Finish
            && step@->access_token == access_token@ && (save is Some <==> step@->save is Some) && (
        save is Some ==> step@->save->0 == save->0@),
        step matches AuthStep::Fail { error } ==> step@ == (AuthStepView::Fail { error }),
{
}

/// The code, or what is in its place, is not changed by looking at it.
pub proof fn codes_keep_their_texts(code: Result<String, AuthError>)
    ensures
        code matches Ok(text) ==> code_view(code) == Ok::<Seq<char>, AuthError>(text@),
        code matches Err(error) ==> code_view(code) == Err::<Seq<char>, AuthError>(error),
{
}

/// What Spotify sends back is a callback: its code is the one among what was sent.
pub proof fn callbacks_carry_what_was_sent(target: Seq<char>, sent: Seq<(Seq<char>, Seq<char>)>)
    ensures
        is_callback(target, sent) <==> target == "/callback?"@ + form_pairs(sent) && target.len()
            <= 0xffff_0000,
        first_code(sent) matches Some(code) ==> code_among(sent) == Ok::<Seq<char>, AuthError>(code),
        first_code(sent) is None ==> code_among(sent) == Err::<Seq<char>, AuthError>(
            AuthError::NoCode,
        ),
{
}

/// The challenge is the digest of the secret, in signs of six bits.
pub proof fn the_challenge_is_the_digest(verifier: Seq<char>, k: int)
    requires
        0 <= k,
    ensures
        code_challenge(verifier) == base64_url(sha256(encode_utf8(verifier))),
        k < code_challenge(verifier).len() ==> code_challenge(verifier)[k] == base64_sign(
            six_bits(sha256(encode_utf8(verifier)), k),
        ),
{
}

} // verus!
