//! Signed session tokens: the claim set, minting and verification.
//!
//! A token is an RS256-signed assertion that names a user and a session. The
//! signing and the signature check are done by `jsonwebtoken`; what is decided
//! here is which claims are signed, which key is handed over, and how the
//! outcome of each outside step is turned into the library's own result.

use vstd::prelude::*;
use crate::ident::{fresh_uuid, parse_uuid, uuid_parsed, uuid_text, uuid_to_string};

verus! {

/// Seconds of clock skew tolerated when a token's expiry is checked: none.
pub const EXPIRY_LEEWAY: u64 = 0;

/// The greatest leeway that may be handed to the signature library: a day.
pub const MAX_LEEWAY: u64 = 86_400;

/// The claim set that is signed into a token.
#[derive(Debug)]
pub struct TokenClaims {
    /// Subject: the user's identifier as text.
    pub sub: String,
    /// The session identifier as text.
    pub token_uuid: String,
    /// Expiry, in seconds since the epoch.
    pub exp: i64,
    /// Time of issue, in seconds since the epoch.
    pub iat: i64,
    /// Time before which the token is not valid.
    pub nbf: i64,
}

/// What minting or verifying a token yields.
#[derive(Debug)]
pub struct TokenDetails {
    /// The signed token; present after minting, absent after verification.
    pub token: Option<String>,
    /// The session identifier.
    pub token_uuid: u128,
    /// The user the token was issued to.
    pub user_id: u128,
    /// Expiry in seconds since the epoch; present after minting.
    pub expires_in: Option<i64>,
}

/// Why a token could not be minted or was not accepted.
#[derive(Debug, Clone, Copy, PartialEq, Eq, Structural)]
pub enum TokenError {
    /// The configured key is not base64 of UTF-8 text.
    KeyEncoding,
    /// The decoded key is not an RSA key in PEM form.
    KeyRejected,
    /// The expiry `now + ttl` does not fit the claim.
    ExpiryOutOfRange,
    /// The signing step failed.
    SigningFailed,
    /// Signature mismatch, malformed claims, or expiry elapsed.
    InvalidToken,
}

/// The bytes that standard base64 decodes a text to, if it is well formed.
pub uninterp spec fn base64_decoded(text: Seq<char>) -> Option<Seq<u8>>;

/// The text that a byte string is as UTF-8, if it is valid UTF-8.
pub uninterp spec fn utf8_decoded(bytes: Seq<u8>) -> Option<Seq<char>>;

/// The signing key that `jsonwebtoken` makes of a PEM text, if it takes the
/// text as an RSA key.
pub uninterp spec fn rsa_signing_key(pem: Seq<char>) -> Option<jsonwebtoken::EncodingKey>;

/// Whether `jsonwebtoken` takes a text as an RSA key in PEM form to sign
/// with.
pub open spec fn rsa_private_pem_ok(pem: Seq<char>) -> bool {
    rsa_signing_key(pem).is_some()
}

/// The token that `jsonwebtoken` makes of the five claims under RS256 with a
/// signing key, if the signing succeeds. RS256 pads by PKCS#1 v1.5, which
/// draws on no random source, so the token is a function of the claims and
/// the key.
pub uninterp spec fn jwt_signed(
    sub: Seq<char>,
    token_uuid: Seq<char>,
    exp: int,
    iat: int,
    nbf: int,
    key: jsonwebtoken::EncodingKey,
) -> Option<Seq<char>>;

/// Whether `jsonwebtoken` accepts a text as an RSA public key in PEM form.
pub uninterp spec fn rsa_public_pem_ok(pem: Seq<char>) -> bool;

/// The PEM text that a configured key stands for: its base64 decoding read as
/// UTF-8. Absent when either step fails.
pub open spec fn key_pem(configured: Seq<char>) -> Option<Seq<char>> {
    match base64_decoded(configured) {
        Some(bytes) => utf8_decoded(bytes),
        None => None,
    }
}

/// Trusted: `base64::engine::general_purpose::STANDARD.decode`. The result is
/// the byte string named `base64_decoded`, absent when the crate reports a
/// decode error.
#[verifier::external_body]
fn decode_base64(text: &str) -> (bytes: Option<Vec<u8>>)
    ensures
        bytes.is_some() == base64_decoded(text@).is_some(),
        bytes.is_some() ==> bytes.unwrap()@ == base64_decoded(text@).unwrap(),
{
    match base64::Engine::decode(&base64::engine::general_purpose::STANDARD, text) {
        Ok(bytes) => Some(bytes),
        Err(_) => None,
    }
}

/// Trusted: `String::from_utf8`. The result is the text named `utf8_decoded`,
/// absent when the bytes are not valid UTF-8.
#[verifier::external_body]
fn decode_utf8(bytes: Vec<u8>) -> (text: Option<String>)
    ensures
        text.is_some() == utf8_decoded(bytes@).is_some(),
        text.is_some() ==> text.unwrap()@ == utf8_decoded(bytes@).unwrap(),
{
    match String::from_utf8(bytes) {
        Ok(text) => Some(text),
        Err(_) => None,
    }
}

/// Decodes a configured key into its PEM text.
pub fn decode_key(configured: &str) -> (pem: Option<String>)
    ensures
        pem.is_some() == key_pem(configured@).is_some(),
        pem.is_some() ==> pem.unwrap()@ == key_pem(configured@).unwrap(),
{
    match decode_base64(configured) {
        Some(bytes) => decode_utf8(bytes),
        None => None,
    }
}

/// Outside type: a private key ready for signing.
#[verifier::external_type_specification]
#[verifier::external_body]
pub struct ExEncodingKey(jsonwebtoken::EncodingKey);

/// Outside type: a public key ready for checking signatures.
#[verifier::external_type_specification]
#[verifier::external_body]
pub struct ExDecodingKey(jsonwebtoken::DecodingKey);

/// Outside type: the error of `jsonwebtoken`.
#[verifier::external_type_specification]
#[verifier::external_body]
pub struct ExJwtError(jsonwebtoken::errors::Error);

/// Outside type: a JSON value, here the decoded claim set of a token.
#[verifier::external_type_specification]
#[verifier::external_body]
pub struct ExJsonValue(serde_json::Value);

/// The claims that a token carries: its middle part, decoded and read as
/// JSON, if the token has such a part. The signature and the expiry have no
/// say in it.
pub uninterp spec fn jwt_payload(token: Seq<char>) -> Option<serde_json::Value>;

/// The text that a JSON object holds under a key, if it holds a string there.
pub uninterp spec fn json_text_at(value: serde_json::Value, key: Seq<char>) -> Option<Seq<char>>;

/// The integer that a JSON object holds under a key, if it holds one that
/// fits 64 signed bits.
pub uninterp spec fn json_int_at(value: serde_json::Value, key: Seq<char>) -> Option<i64>;

/// Trusted: `jsonwebtoken::EncodingKey::from_rsa_pem`. The result is the key
/// named `rsa_signing_key`, and an error exactly where there is none.
#[verifier::external_body]
fn rsa_encoding_key(pem: &str) -> (key: Result<
    jsonwebtoken::EncodingKey,
    jsonwebtoken::errors::Error,
>)
    ensures
        key.is_ok() == rsa_signing_key(pem@).is_some(),
        key.is_ok() ==> Some(key.unwrap()) == rsa_signing_key(pem@),
{
    jsonwebtoken::EncodingKey::from_rsa_pem(pem.as_bytes())
}

/// Trusted: `jsonwebtoken::DecodingKey::from_rsa_pem`. It succeeds exactly on
/// the texts named by `rsa_public_pem_ok`.
#[verifier::external_body]
fn rsa_decoding_key(pem: &str) -> (key: Result<
    jsonwebtoken::DecodingKey,
    jsonwebtoken::errors::Error,
>)
    ensures
        key.is_ok() == rsa_public_pem_ok(pem@),
{
    jsonwebtoken::DecodingKey::from_rsa_pem(pem.as_bytes())
}

/// Trusted: `jsonwebtoken::encode` with an RS256 header, on the five claims
/// as a JSON object. The result is the token named `jwt_signed` for the
/// claims and the key, and an error exactly where there is none. The crate
/// writes the claims as JSON into the token's middle part, which is the part
/// that decoding reads, so a token that is made carries the claims it was
/// made of.
#[verifier::external_body]
fn jwt_encode(claims: &TokenClaims, key: &jsonwebtoken::EncodingKey) -> (token: Result<
    String,
    jsonwebtoken::errors::Error,
>)
    ensures
        token.is_ok() == jwt_signed(
            claims@.sub,
            claims@.token_uuid,
            claims@.exp,
            claims@.iat,
            claims@.nbf,
            *key,
        ).is_some(),
        token.is_ok() ==> token.unwrap()@ == jwt_signed(
            claims@.sub,
            claims@.token_uuid,
            claims@.exp,
            claims@.iat,
            claims@.nbf,
            *key,
        ).unwrap(),
        token.is_ok() ==> token_carries(token.unwrap()@, claims@),
{
    let mut object = serde_json::Map::new();
    object.insert("sub".to_string(), serde_json::Value::from(claims.sub.as_str()));
    object.insert("token_uuid".to_string(), serde_json::Value::from(claims.token_uuid.as_str()));
    object.insert("exp".to_string(), serde_json::Value::from(claims.exp));
    object.insert("iat".to_string(), serde_json::Value::from(claims.iat));
    object.insert("nbf".to_string(), serde_json::Value::from(claims.nbf));
    jsonwebtoken::encode(&jsonwebtoken::Header::new(jsonwebtoken::Algorithm::RS256), &object, key)
}

/// Trusted: `jsonwebtoken::decode` under RS256 validation with the given
/// leeway. Whether the token is accepted depends on the clock that the crate
/// reads, so nothing is claimed of that; claims that are handed out are the
/// ones named `jwt_payload` for the token. The crate subtracts the leeway
/// from the clock's seconds since the epoch without a check, so the leeway is
/// held to a day at most.
#[verifier::external_body]
fn jwt_decode(token: &str, key: &jsonwebtoken::DecodingKey, leeway: u64) -> (claims: Result<
    serde_json::Value,
    jsonwebtoken::errors::Error,
>)
    requires
        leeway <= MAX_LEEWAY,
    ensures
        claims.is_ok() ==> Some(claims.unwrap()) == jwt_payload(token@),
{
    let mut validation = jsonwebtoken::Validation::new(jsonwebtoken::Algorithm::RS256);
    validation.leeway = leeway;
    match jsonwebtoken::decode::<serde_json::Value>(token, key, &validation) {
        Ok(data) => Ok(data.claims),
        Err(error) => Err(error),
    }
}

/// Trusted: `serde_json::Value::get` followed by `as_str`. The result is the
/// text named `json_text_at`.
#[verifier::external_body]
fn json_text(value: &serde_json::Value, key: &str) -> (text: Option<String>)
    ensures
        text.is_some() == json_text_at(*value, key@).is_some(),
        text.is_some() ==> text.unwrap()@ == json_text_at(*value, key@).unwrap(),
{
    value.get(key).and_then(|field| field.as_str()).map(|text| text.to_string())
}

/// Trusted: `serde_json::Value::get` followed by `as_i64`. The result is the
/// integer named `json_int_at`.
#[verifier::external_body]
fn json_int(value: &serde_json::Value, key: &str) -> (number: Option<i64>)
    ensures
        number == json_int_at(*value, key@),
{
    value.get(key).and_then(|field| field.as_i64())
}

/// Trusted: `chrono::Utc::now` and `timestamp`. The clock decides the
/// result, so nothing is claimed of it.
#[verifier::external_body]
fn unix_now() -> (seconds: i64) {
    chrono::Utc::now().timestamp()
}

/// The claim set as mathematical values.
pub struct ClaimsView {
    pub sub: Seq<char>,
    pub token_uuid: Seq<char>,
    pub exp: int,
    pub iat: int,
    pub nbf: int,
}

impl View for TokenClaims {
    type V = ClaimsView;

    open spec fn view(&self) -> ClaimsView {
        ClaimsView {
            sub: self.sub@,
            token_uuid: self.token_uuid@,
            exp: self.exp as int,
            iat: self.iat as int,
            nbf: self.nbf as int,
        }
    }
}

/// The claims signed for `user_id` and `session_id` at time `now` with a
/// validity of `ttl` seconds.
pub open spec fn claims_for(user_id: u128, session_id: u128, now: int, ttl: int) -> ClaimsView {
    ClaimsView {
        sub: uuid_text(user_id),
        token_uuid: uuid_text(session_id),
        exp: now + ttl,
        iat: now,
        nbf: now,
    }
}

/// Whether a claim set names `user_id` as its subject and `session_id` as its
/// session: both texts parse to these identifiers.
pub open spec fn claims_name(claims: ClaimsView, user_id: u128, session_id: u128) -> bool {
    &&& uuid_parsed(claims.sub) == Some(user_id)
    &&& uuid_parsed(claims.token_uuid) == Some(session_id)
}

/// Whether an expiry fits the 64 signed bits of the claim.
pub open spec fn expiry_fits(now: int, ttl: int) -> bool {
    i64::MIN <= now + ttl <= i64::MAX
}

/// Builds the claim set for a token issued at `now` that is valid for `ttl`
/// seconds. Absent exactly when the expiry does not fit the claim.
pub fn token_claims(user_id: u128, session_id: u128, now: i64, ttl: i64) -> (claims: Option<TokenClaims>)
    ensures
        claims.is_some() == expiry_fits(now as int, ttl as int),
        claims.is_some() ==> claims.unwrap()@ == claims_for(user_id, session_id, now as int, ttl as int),
        claims.is_some() ==> claims_name(claims.unwrap()@, user_id, session_id),
{
    match now.checked_add(ttl) {
        Some(exp) => {
            let sub = uuid_to_string(user_id);
            let token_uuid = uuid_to_string(session_id);
            Some(TokenClaims { sub, token_uuid, exp, iat: now, nbf: now })
        },
        None => None,
    }
}

/// Turns the outcome of the signing step into the result of minting: the
/// details carry the signed token and the expiry, and a failed signing is
/// reported as `SigningFailed`.
pub fn finish_mint(
    user_id: u128,
    session_id: u128,
    expires_at: i64,
    signed: Result<String, jsonwebtoken::errors::Error>,
) -> (minted: Result<TokenDetails, TokenError>)
    ensures
        signed.is_ok() == minted.is_ok(),
        signed.is_err() ==> minted == Err::<TokenDetails, TokenError>(TokenError::SigningFailed),
        signed.is_ok() ==> minted.unwrap() == (TokenDetails {
            token: Some(signed.unwrap()),
            token_uuid: session_id,
            user_id: user_id,
            expires_in: Some(expires_at),
        }),
{
    match signed {
        Ok(token) => Ok(
            TokenDetails {
                token: Some(token),
                token_uuid: session_id,
                user_id,
                expires_in: Some(expires_at),
            },
        ),
        Err(_) => Err(TokenError::SigningFailed),
    }
}

/// The token that signing a claim set with a key gives, if the signing
/// succeeds.
pub open spec fn signed_claims(claims: ClaimsView, key: jsonwebtoken::EncodingKey) -> Option<
    Seq<char>,
> {
    jwt_signed(claims.sub, claims.token_uuid, claims.exp, claims.iat, claims.nbf, key)
}

/// The token that minting signs: the claims for the user and the session at
/// `now` with a validity of `ttl` seconds, signed with the key that the PEM
/// text makes. Absent where the text makes no key or the signing fails.
pub open spec fn minted_token(user_id: u128, session_id: u128, now: int, ttl: int, pem: Seq<char>) -> Option<
    Seq<char>,
> {
    match rsa_signing_key(pem) {
        Some(key) => signed_claims(claims_for(user_id, session_id, now, ttl), key),
        None => None,
    }
}

/// Whether `details` are those of a minted token with the text `token`: they
/// carry that text, the session, the user and the expiry.
pub open spec fn details_of(
    details: TokenDetails,
    token: Seq<char>,
    user_id: u128,
    session_id: u128,
    expires_at: int,
) -> bool {
    &&& details.token.is_some()
    &&& details.token.unwrap()@ == token
    &&& details.token_uuid == session_id
    &&& details.user_id == user_id
    &&& details.expires_in == Some(expires_at as i64)
}

/// What minting with a given clock reading and session identifier returns.
/// A key that cannot be decoded, an expiry that does not fit and a key that is
/// no RSA key are each reported, in that order. Past those, the result is the
/// signed claims with their session, user and expiry where the signing
/// succeeds, and `SigningFailed` where it does not. A token that is made
/// carries its claims, and these name the user and the session.
pub open spec fn minted(
    result: Result<TokenDetails, TokenError>,
    user_id: u128,
    session_id: u128,
    now: int,
    ttl: int,
    private_key: Seq<char>,
) -> bool {
    if key_pem(private_key).is_none() {
        result == Err::<TokenDetails, TokenError>(TokenError::KeyEncoding)
    } else if !expiry_fits(now, ttl) {
        result == Err::<TokenDetails, TokenError>(TokenError::ExpiryOutOfRange)
    } else if !rsa_private_pem_ok(key_pem(private_key).unwrap()) {
        result == Err::<TokenDetails, TokenError>(TokenError::KeyRejected)
    } else {
        match minted_token(user_id, session_id, now, ttl, key_pem(private_key).unwrap()) {
            Some(token) => {
                &&& result.is_ok()
                &&& details_of(result.unwrap(), token, user_id, session_id, now + ttl)
                &&& token_carries(token, claims_for(user_id, session_id, now, ttl))
                &&& claims_name(claims_for(user_id, session_id, now, ttl), user_id, session_id)
            },
            None => result == Err::<TokenDetails, TokenError>(TokenError::SigningFailed),
        }
    }
}

/// Mints a token for `user_id` under the session `session_id`, issued at
/// `now` and valid for `ttl` seconds, signed with the configured private key.
pub fn mint_with(
    user_id: u128,
    session_id: u128,
    now: i64,
    ttl: i64,
    private_key: &str,
) -> (result: Result<TokenDetails, TokenError>)
    ensures
        minted(result, user_id, session_id, now as int, ttl as int, private_key@),
{
    let pem = match decode_key(private_key) {
        Some(pem) => pem,
        None => { return Err(TokenError::KeyEncoding); },
    };
    let claims = match token_claims(user_id, session_id, now, ttl) {
        Some(claims) => claims,
        None => { return Err(TokenError::ExpiryOutOfRange); },
    };
    let key = match rsa_encoding_key(pem.as_str()) {
        Ok(key) => key,
        Err(_) => { return Err(TokenError::KeyRejected); },
    };
    let signed = jwt_encode(&claims, &key);
    finish_mint(user_id, session_id, claims.exp, signed)
}

/// Mints a token for `user_id` that is valid for `ttl` seconds from now, under
/// a fresh random session identifier. The clock and the random source are
/// read once each; the result is what `mint_with` gives for those readings.
pub fn generate_jwt_token(user_id: u128, ttl: i64, private_key: String) -> (result: Result<
    TokenDetails,
    TokenError,
>)
    ensures
        exists|session_id: u128, now: int|
            i64::MIN <= now <= i64::MAX && minted(
                result,
                user_id,
                session_id,
                now,
                ttl as int,
                private_key@,
            ),
        key_pem(private_key@).is_none() ==> result == Err::<TokenDetails, TokenError>(
            TokenError::KeyEncoding,
        ),
        result.is_ok() ==> {
            &&& result.unwrap().user_id == user_id
            &&& result.unwrap().token.is_some()
            &&& result.unwrap().expires_in.is_some()
            &&& key_pem(private_key@).is_some()
            &&& rsa_private_pem_ok(key_pem(private_key@).unwrap())
        },
        result.is_err() ==> result.unwrap_err() != TokenError::InvalidToken,
{
    let now: i64 = unix_now();
    let session_id: u128 = fresh_uuid();
    let result = mint_with(user_id, session_id, now, ttl, private_key.as_str());
    proof {
        assert(minted(result, user_id, session_id, now as int, ttl as int, private_key@));
    }
    result
}

/// The claim set that a decoded JSON object holds: present exactly when the
/// object has the two texts and the three integers under their names.
pub open spec fn json_claims(value: serde_json::Value) -> Option<ClaimsView> {
    if json_text_at(value, "sub"@).is_some() && json_text_at(value, "token_uuid"@).is_some()
        && json_int_at(value, "exp"@).is_some() && json_int_at(value, "iat"@).is_some()
        && json_int_at(value, "nbf"@).is_some() {
        Some(
            ClaimsView {
                sub: json_text_at(value, "sub"@).unwrap(),
                token_uuid: json_text_at(value, "token_uuid"@).unwrap(),
                exp: json_int_at(value, "exp"@).unwrap() as int,
                iat: json_int_at(value, "iat"@).unwrap() as int,
                nbf: json_int_at(value, "nbf"@).unwrap() as int,
            },
        )
    } else {
        None
    }
}

/// Whether a token carries a claim set: its payload is a JSON object that
/// holds exactly these claims under their names.
pub open spec fn token_carries(token: Seq<char>, claims: ClaimsView) -> bool {
    jwt_payload(token).is_some() && json_claims(jwt_payload(token).unwrap()) == Some(claims)
}

/// Reads the claim set out of a decoded JSON object.
pub fn claims_from_json(value: &serde_json::Value) -> (claims: Option<TokenClaims>)
    ensures
        claims.is_some() == json_claims(*value).is_some(),
        claims.is_some() ==> claims.unwrap()@ == json_claims(*value).unwrap(),
{
    let sub = match json_text(value, "sub") {
        Some(text) => text,
        None => { return None; },
    };
    let token_uuid = match json_text(value, "token_uuid") {
        Some(text) => text,
        None => { return None; },
    };
    let exp: i64 = match json_int(value, "exp") {
        Some(number) => number,
        None => { return None; },
    };
    let iat: i64 = match json_int(value, "iat") {
        Some(number) => number,
        None => { return None; },
    };
    let nbf: i64 = match json_int(value, "nbf") {
        Some(number) => number,
        None => { return None; },
    };
    Some(TokenClaims { sub, token_uuid, exp, iat, nbf })
}

/// The session and the user that a claim set names, in that order: present
/// exactly when both texts parse as identifiers.
pub open spec fn claims_identity(claims: ClaimsView) -> Option<(u128, u128)> {
    match (uuid_parsed(claims.token_uuid), uuid_parsed(claims.sub)) {
        (Some(session_id), Some(user_id)) => Some((session_id, user_id)),
        _ => None,
    }
}

/// The details that verification returns for a session and a user: the
/// identifiers alone, without a token or an expiry.
pub open spec fn verified_details(session_id: u128, user_id: u128) -> TokenDetails {
    TokenDetails { token: None, token_uuid: session_id, user_id: user_id, expires_in: None }
}

/// Recovers the session and the user from a verified claim set. Claims whose
/// identifiers do not parse are rejected as `InvalidToken`.
pub fn details_from_claims(claims: &TokenClaims) -> (result: Result<TokenDetails, TokenError>)
    ensures
        result.is_ok() == claims_identity(claims@).is_some(),
        result.is_ok() ==> result.unwrap() == verified_details(
            claims_identity(claims@).unwrap().0,
            claims_identity(claims@).unwrap().1,
        ),
        result.is_err() ==> result.unwrap_err() == TokenError::InvalidToken,
{
    let user_id: u128 = match parse_uuid(claims.sub.as_str()) {
        Some(id) => id,
        None => { return Err(TokenError::InvalidToken); },
    };
    let session_id: u128 = match parse_uuid(claims.token_uuid.as_str()) {
        Some(id) => id,
        None => { return Err(TokenError::InvalidToken); },
    };
    Ok(TokenDetails { token: None, token_uuid: session_id, user_id, expires_in: None })
}

/// What verification returns for each outcome of the signature library: its
/// refusal, an object that is no claim set, and claims that name no
/// identifiers are all `InvalidToken`; otherwise the named session and user.
pub open spec fn accepted(decoded: Result<serde_json::Value, jsonwebtoken::errors::Error>) -> Result<
    TokenDetails,
    TokenError,
> {
    match decoded {
        Ok(value) => match json_claims(value) {
            Some(claims) => match claims_identity(claims) {
                Some((session_id, user_id)) => Ok(verified_details(session_id, user_id)),
                None => Err(TokenError::InvalidToken),
            },
            None => Err(TokenError::InvalidToken),
        },
        Err(_) => Err(TokenError::InvalidToken),
    }
}

/// Turns the outcome of the signature library into the result of
/// verification.
pub fn accept_decoded(decoded: Result<serde_json::Value, jsonwebtoken::errors::Error>) -> (result:
    Result<TokenDetails, TokenError>)
    ensures
        result == accepted(decoded),
{
    match decoded {
        Ok(value) => match claims_from_json(&value) {
            Some(claims) => details_from_claims(&claims),
            None => Err(TokenError::InvalidToken),
        },
        Err(_) => Err(TokenError::InvalidToken),
    }
}

/// What verification of `token` under a configured public key may return. A
/// key that cannot be decoded and a key that is no RSA key are each reported
/// as such. Under a usable key the signature library decides whether the
/// token is taken: where it is not, the result is `InvalidToken`; where it
/// is, the result is what `accepted` gives for the claims that the token
/// carries, so the identifiers they name or `InvalidToken`.
pub open spec fn verifies_to(
    result: Result<TokenDetails, TokenError>,
    public_key: Seq<char>,
    token: Seq<char>,
) -> bool {
    if key_pem(public_key).is_none() {
        result == Err::<TokenDetails, TokenError>(TokenError::KeyEncoding)
    } else if !rsa_public_pem_ok(key_pem(public_key).unwrap()) {
        result == Err::<TokenDetails, TokenError>(TokenError::KeyRejected)
    } else {
        ||| result == Err::<TokenDetails, TokenError>(TokenError::InvalidToken)
        ||| jwt_payload(token).is_some() && result == accepted(Ok(jwt_payload(token).unwrap()))
    }
}

/// Under a usable key, verification returns identifiers without a token or
/// `InvalidToken`, and never a fault of the key.
pub proof fn lemma_verifies_to(
    result: Result<TokenDetails, TokenError>,
    public_key: Seq<char>,
    token: Seq<char>,
)
    requires
        verifies_to(result, public_key, token),
    ensures
        (result == Err::<TokenDetails, TokenError>(TokenError::KeyEncoding)) <==> key_pem(
            public_key,
        ).is_none(),
        (result == Err::<TokenDetails, TokenError>(TokenError::KeyRejected)) <==> (key_pem(
            public_key,
        ).is_some() && !rsa_public_pem_ok(key_pem(public_key).unwrap())),
        result.is_ok() ==> result.unwrap().token.is_none() && result.unwrap().expires_in.is_none(),
        result.is_ok() ==> jwt_payload(token).is_some() && result == accepted(
            Ok(jwt_payload(token).unwrap()),
        ),
        result.is_err() ==> result.unwrap_err() == TokenError::KeyEncoding || result.unwrap_err()
            == TokenError::KeyRejected || result.unwrap_err() == TokenError::InvalidToken,
{
}

/// Verifies a token with the configured public key and returns the session
/// and the user that it names. A key that cannot be decoded or is no RSA key
/// is reported as such; every other failure is `InvalidToken`. Whether the
/// token is taken is decided by the signature library, which also reads the
/// clock for the expiry; a token that is taken yields what `accepted` gives
/// for the claims it carries.
pub fn verify_jwt_token(public_key: String, token: &str) -> (result: Result<TokenDetails, TokenError>)
    ensures
        verifies_to(result, public_key@, token@),
        key_pem(public_key@).is_none() ==> result == Err::<TokenDetails, TokenError>(
            TokenError::KeyEncoding,
        ),
        key_pem(public_key@).is_some() && !rsa_public_pem_ok(key_pem(public_key@).unwrap())
            ==> result == Err::<TokenDetails, TokenError>(TokenError::KeyRejected),
        result.is_ok() ==> jwt_payload(token@).is_some() && result == accepted(
            Ok(jwt_payload(token@).unwrap()),
        ),
        result.is_ok() ==> result.unwrap().token.is_none() && result.unwrap().expires_in.is_none(),
        result.is_err() ==> result.unwrap_err() == TokenError::KeyEncoding || result.unwrap_err()
            == TokenError::KeyRejected || result.unwrap_err() == TokenError::InvalidToken,
{
    let pem = match decode_key(public_key.as_str()) {
        Some(pem) => pem,
        None => { return Err(TokenError::KeyEncoding); },
    };
    let key = match rsa_decoding_key(pem.as_str()) {
        Ok(key) => key,
        Err(_) => { return Err(TokenError::KeyRejected); },
    };
    let decoded = jwt_decode(token, &key, EXPIRY_LEEWAY);
    let result = accept_decoded(decoded);
    proof {
        assert(result == accepted(decoded));
    }
    result
}

} // verus!
