use vstd::prelude::*;
use crate::claims::{
    TokenClaims, TokenKind, claims_text, claims_wf, payload_claims, encode_claims, decode_claims,
};
use crate::role::Role;
use jsonwebtoken::errors::ErrorKind;

verus! {

/// Lifetime of an access token, in seconds.
pub const ACCESS_TTL: u64 = 900;

/// Lifetime of a refresh token, in seconds.
pub const REFRESH_TTL: u64 = 604800;

/// Lifetime of a password-reset token, in seconds.
pub const RESET_TTL: u64 = 900;

/// Why a token was not accepted, or could not be made.
#[derive(Debug, Clone, Copy, PartialEq, Eq, Structural)]
pub enum TokenError {
    /// The token is past its expiry.
    TokenExpired,
    /// The signature does not verify, or the claims are not of the expected
    /// kind or shape.
    TokenInvalid,
    /// The token cannot be parsed at all.
    TokenMalformed,
    /// Signing failed (for instance, the signing key is unusable).
    SigningFailed,
}

/// How the signature layer turned a token down.
#[derive(Debug, Clone, Copy, PartialEq, Eq, Structural)]
pub enum JwtRejection {
    /// Not three base64url segments with a JSON header, or a payload that
    /// does not decode to a JSON object.
    Unparsable,
    /// Unusable key, wrong algorithm, bad signature, or a payload carrying an
    /// `aud` claim.
    Refused,
}

/// The RS256-signed JWT (header `{"typ":"JWT","alg":"RS256"}`) whose payload
/// is the JSON text `payload`, signed with the PEM-encoded RSA private key
/// `private_pem`; `None` when the key cannot be read or signing fails.
pub uninterp spec fn rs256_jwt(payload: Seq<char>, private_pem: Seq<u8>) -> Option<Seq<char>>;

/// What RS256 decoding of `token` under the PEM-encoded RSA public key
/// `public_pem` gives, with expiry and required claims not checked: the
/// payload text, or how the token was turned down.
pub uninterp spec fn rs256_decoded(token: Seq<char>, public_pem: Seq<u8>) -> Result<
    Seq<char>,
    JwtRejection,
>;

/// Relies on `jsonwebtoken::encode` with an RS256 header, the payload handed
/// over verbatim as a `serde_json::value::RawValue` and the key read by
/// `EncodingKey::from_rsa_pem`: signing is deterministic for RS256.
#[verifier::external_body]
fn jwt_encode(payload: &str, private_pem: &[u8]) -> (r: Result<String, ()>)
    ensures
        r matches Ok(x) ==> rs256_jwt(payload@, private_pem@) == Some(x@),
        r is Err ==> rs256_jwt(payload@, private_pem@) is None,
{
    let key = jsonwebtoken::EncodingKey::from_rsa_pem(private_pem).map_err(|_| ())?;
    let raw = serde_json::value::RawValue::from_string(payload.to_string()).map_err(|_| ())?;
    let header = jsonwebtoken::Header::new(jsonwebtoken::Algorithm::RS256);
    jsonwebtoken::encode(&header, &raw, &key).map_err(|_| ())
}

/// Relies on `jsonwebtoken::decode` for RS256 with the key read by
/// `DecodingKey::from_rsa_pem`, returning the payload verbatim as a
/// `serde_json::value::RawValue`. Expiry and required claims are left to the
/// caller, so the outcome depends on the token and the key alone.
#[verifier::external_body]
fn jwt_decode(token: &str, public_pem: &[u8]) -> (r: Result<String, JwtRejection>)
    ensures
        r matches Ok(p) ==> (rs256_decoded(token@, public_pem@) matches Ok(q) && q == p@),
        r matches Err(e) ==> (rs256_decoded(token@, public_pem@) matches Err(f) && f == e),
{
    let key = jsonwebtoken::DecodingKey::from_rsa_pem(public_pem)
        .map_err(|_| JwtRejection::Refused)?;
    let mut validation = jsonwebtoken::Validation::new(jsonwebtoken::Algorithm::RS256);
    validation.validate_exp = false;
    validation.required_spec_claims.clear();
    match jsonwebtoken::decode::<Box<serde_json::value::RawValue>>(token, &key, &validation) {
        Ok(data) => Ok(data.claims.get().to_string()),
        Err(e) => match e.kind() {
            ErrorKind::InvalidToken | ErrorKind::Base64(_) => Err(JwtRejection::Unparsable),
            ErrorKind::Json(_) | ErrorKind::Utf8(_) => Err(JwtRejection::Unparsable),
            _ => Err(JwtRejection::Refused),
        },
    }
}

/// Relies on `chrono::Utc::now`: the current time in whole seconds since the
/// Unix epoch.
#[verifier::external_body]
fn unix_time() -> i64 {
    chrono::Utc::now().timestamp()
}

/// The current time in seconds since the Unix epoch.
pub fn now_seconds() -> u64 {
    let t = unix_time();
    if t < 0 {
        0
    } else {
        t as u64
    }
}

/// `now + ttl`, held at the largest instant.
pub open spec fn expiry_after(now: u64, ttl: u64) -> u64 {
    if now + ttl <= u64::MAX {
        (now + ttl) as u64
    } else {
        u64::MAX
    }
}

fn expiry(now: u64, ttl: u64) -> (r: u64)
    ensures
        r == expiry_after(now, ttl),
{
    now.saturating_add(ttl)
}

/// The claims of an access token issued at `now`.
pub open spec fn spec_access_claims(subject: u128, role: Role, now: u64) -> TokenClaims {
    TokenClaims {
        kind: TokenKind::Access,
        subject,
        role: Some(role),
        exp: expiry_after(now, ACCESS_TTL),
    }
}

/// The claims of a refresh token issued at `now`.
pub open spec fn spec_refresh_claims(subject: u128, role: Role, now: u64) -> TokenClaims {
    TokenClaims {
        kind: TokenKind::Refresh,
        subject,
        role: Some(role),
        exp: expiry_after(now, REFRESH_TTL),
    }
}

/// The claims of a password-reset token issued at `now`.
pub open spec fn spec_reset_claims(subject: u128, now: u64) -> TokenClaims {
    TokenClaims { kind: TokenKind::Reset, subject, role: None, exp: expiry_after(now, RESET_TTL) }
}

/// What a verifier expecting `kind` makes of claims read at instant `now`:
/// unreadable claims and claims of another kind are invalid, claims at or past
/// their expiry are expired.
pub open spec fn check_claims(c: Option<TokenClaims>, kind: TokenKind, now: u64) -> Result<
    TokenClaims,
    TokenError,
> {
    match c {
        None => Err(TokenError::TokenInvalid),
        Some(c) => if c.kind != kind {
            Err(TokenError::TokenInvalid)
        } else if now >= c.exp {
            Err(TokenError::TokenExpired)
        } else {
            Ok(c)
        },
    }
}

/// Checks a verified payload text against the expected kind and the time.
pub fn check_payload(payload: &str, kind: TokenKind, now: u64) -> (r: Result<TokenClaims, TokenError>)
    ensures
        r == check_claims(payload_claims(payload@), kind, now),
{
    match decode_claims(payload) {
        None => Err(TokenError::TokenInvalid),
        Some(c) => {
            if c.kind != kind {
                Err(TokenError::TokenInvalid)
            } else if now >= c.exp {
                Err(TokenError::TokenExpired)
            } else {
                Ok(c)
            }
        },
    }
}

/// Signs and verifies the three token kinds with an RSA key pair, held as PEM
/// text and never changed after construction.
///
/// Tokens are stateless: a token stays valid until its embedded expiry, and
/// nothing revokes it earlier. In particular a password reset does not
/// invalidate outstanding refresh tokens; their lifetime (`REFRESH_TTL`)
/// bounds that exposure.
pub struct TokenAuthority {
    private_pem: Vec<u8>,
    public_pem: Vec<u8>,
}

impl TokenAuthority {
    /// The signing key.
    pub closed spec fn signing_key(&self) -> Seq<u8> {
        self.private_pem@
    }

    /// The verification key.
    pub closed spec fn verifying_key(&self) -> Seq<u8> {
        self.public_pem@
    }

    /// An authority over the given PEM-encoded RSA private and public keys.
    pub fn new(private_pem: Vec<u8>, public_pem: Vec<u8>) -> (r: TokenAuthority)
        ensures
            r.signing_key() == private_pem@,
            r.verifying_key() == public_pem@,
    {
        TokenAuthority { private_pem, public_pem }
    }

    /// Signs the given claims.
    pub fn sign(&self, c: &TokenClaims) -> (r: Result<String, TokenError>)
        ensures
            rs256_jwt(claims_text(*c), self.signing_key()) matches Some(t) ==> (r matches Ok(x)
                && x@ == t),
            rs256_jwt(claims_text(*c), self.signing_key()) is None ==> r == Err::<String, TokenError>(
                TokenError::SigningFailed,
            ),
    {
        let payload = encode_claims(c);
        match jwt_encode(payload.as_str(), self.private_pem.as_slice()) {
            Ok(t) => Ok(t),
            Err(_) => Err(TokenError::SigningFailed),
        }
    }

    /// Verifies `token` as a token of `kind` at instant `now`.
    pub fn verify(&self, token: &str, kind: TokenKind, now: u64) -> (r: Result<TokenClaims, TokenError>)
        ensures
            rs256_decoded(token@, self.verifying_key()) matches Ok(p) ==> r == check_claims(
                payload_claims(p),
                kind,
                now,
            ),
            rs256_decoded(token@, self.verifying_key()) == Err::<Seq<char>, JwtRejection>(
                JwtRejection::Unparsable,
            ) ==> r == Err::<TokenClaims, TokenError>(TokenError::TokenMalformed),
            rs256_decoded(token@, self.verifying_key()) == Err::<Seq<char>, JwtRejection>(
                JwtRejection::Refused,
            ) ==> r == Err::<TokenClaims, TokenError>(TokenError::TokenInvalid),
            rs256_decoded(token@, self.verifying_key()) is Err ==> r is Err,
            r matches Ok(c) ==> c.kind == kind && claims_wf(c) && now < c.exp,
    {
        match jwt_decode(token, self.public_pem.as_slice()) {
            Ok(p) => check_payload(p.as_str(), kind, now),
            Err(JwtRejection::Unparsable) => Err(TokenError::TokenMalformed),
            Err(JwtRejection::Refused) => Err(TokenError::TokenInvalid),
        }
    }

    /// Issues an access token for `subject` with `role` at instant `now`.
    pub fn generate_jwt_at(&self, subject: u128, role: Role, now: u64) -> (r: Result<String, TokenError>)
        ensures
            rs256_jwt(claims_text(spec_access_claims(subject, role, now)), self.signing_key()) matches Some(t) ==> (r matches Ok(
                x,
            ) && x@ == t),
            rs256_jwt(claims_text(spec_access_claims(subject, role, now)), self.signing_key()) is None ==> r == Err::<
                String,
                TokenError,
            >(TokenError::SigningFailed),
    {
        let c = TokenClaims {
            kind: TokenKind::Access,
            subject,
            role: Some(role),
            exp: expiry(now, ACCESS_TTL),
        };
        self.sign(&c)
    }

    /// Issues a refresh token for `subject` with `role` at instant `now`.
    pub fn generate_refresh_token_at(&self, subject: u128, role: Role, now: u64) -> (r: Result<
        String,
        TokenError,
    >)
        ensures
            rs256_jwt(claims_text(spec_refresh_claims(subject, role, now)), self.signing_key()) matches Some(t) ==> (r matches Ok(
                x,
            ) && x@ == t),
            rs256_jwt(claims_text(spec_refresh_claims(subject, role, now)), self.signing_key()) is None ==> r == Err::<
                String,
                TokenError,
            >(TokenError::SigningFailed),
    {
        let c = TokenClaims {
            kind: TokenKind::Refresh,
            subject,
            role: Some(role),
            exp: expiry(now, REFRESH_TTL),
        };
        self.sign(&c)
    }

    /// Issues a password-reset token for `subject` at instant `now`.
    pub fn generate_reset_token_at(&self, subject: u128, now: u64) -> (r: Result<String, TokenError>)
        ensures
            rs256_jwt(claims_text(spec_reset_claims(subject, now)), self.signing_key()) matches Some(t) ==> (r matches Ok(
                x,
            ) && x@ == t),
            rs256_jwt(claims_text(spec_reset_claims(subject, now)), self.signing_key()) is None ==> r == Err::<
                String,
                TokenError,
            >(TokenError::SigningFailed),
    {
        let c = TokenClaims {
            kind: TokenKind::Reset,
            subject,
            role: None,
            exp: expiry(now, RESET_TTL),
        };
        self.sign(&c)
    }

    /// Issues an access token for `subject` with `role`, valid from now.
    pub fn generate_jwt(&self, subject: u128, role: Role) -> (r: Result<String, TokenError>)
        ensures
            r matches Ok(t) ==> exists|now: u64|
                rs256_jwt(#[trigger] claims_text(spec_access_claims(subject, role, now)), self.signing_key()) == Some(t@),
            r is Err ==> r == Err::<String, TokenError>(TokenError::SigningFailed) && exists|now: u64|
                rs256_jwt(#[trigger] claims_text(spec_access_claims(subject, role, now)), self.signing_key()) is None,
    {
        self.generate_jwt_at(subject, role, now_seconds())
    }

    /// Issues a refresh token for `subject` with `role`, valid from now.
    pub fn generate_refresh_token(&self, subject: u128, role: Role) -> (r: Result<String, TokenError>)
        ensures
            r matches Ok(t) ==> exists|now: u64|
                rs256_jwt(#[trigger] claims_text(spec_refresh_claims(subject, role, now)), self.signing_key()) == Some(t@),
            r is Err ==> r == Err::<String, TokenError>(TokenError::SigningFailed) && exists|now: u64|
                rs256_jwt(#[trigger] claims_text(spec_refresh_claims(subject, role, now)), self.signing_key()) is None,
    {
        self.generate_refresh_token_at(subject, role, now_seconds())
    }

    /// Issues a password-reset token for `subject`, valid from now.
    pub fn generate_reset_token(&self, subject: u128) -> (r: Result<String, TokenError>)
        ensures
            r matches Ok(t) ==> exists|now: u64|
                rs256_jwt(#[trigger] claims_text(spec_reset_claims(subject, now)), self.signing_key()) == Some(t@),
            r is Err ==> r == Err::<String, TokenError>(TokenError::SigningFailed) && exists|now: u64|
                rs256_jwt(#[trigger] claims_text(spec_reset_claims(subject, now)), self.signing_key()) is None,
    {
        self.generate_reset_token_at(subject, now_seconds())
    }

    /// Verifies an access token against the current time.
    pub fn validate_jwt(&self, token: &str) -> (r: Result<TokenClaims, TokenError>)
        ensures
            r matches Ok(c) ==> c.kind == TokenKind::Access && claims_wf(c),
            rs256_decoded(token@, self.verifying_key()) matches Ok(p) ==> exists|now: u64|
                r == #[trigger] check_claims(payload_claims(p), TokenKind::Access, now),
            rs256_decoded(token@, self.verifying_key()) is Err ==> r is Err,
    {
        self.verify(token, TokenKind::Access, now_seconds())
    }

    /// Verifies a refresh token against the current time.
    pub fn validate_refresh_token(&self, token: &str) -> (r: Result<TokenClaims, TokenError>)
        ensures
            r matches Ok(c) ==> c.kind == TokenKind::Refresh && claims_wf(c),
            rs256_decoded(token@, self.verifying_key()) matches Ok(p) ==> exists|now: u64|
                r == #[trigger] check_claims(payload_claims(p), TokenKind::Refresh, now),
            rs256_decoded(token@, self.verifying_key()) is Err ==> r is Err,
    {
        self.verify(token, TokenKind::Refresh, now_seconds())
    }

    /// Verifies a password-reset token against the current time.
    pub fn validate_reset_token(&self, token: &str) -> (r: Result<TokenClaims, TokenError>)
        ensures
            r matches Ok(c) ==> c.kind == TokenKind::Reset && claims_wf(c),
            rs256_decoded(token@, self.verifying_key()) matches Ok(p) ==> exists|now: u64|
                r == #[trigger] check_claims(payload_claims(p), TokenKind::Reset, now),
            rs256_decoded(token@, self.verifying_key()) is Err ==> r is Err,
    {
        self.verify(token, TokenKind::Reset, now_seconds())
    }

    /// The subject of an access token valid at instant `now`.
    pub fn decode_jwt_uuid_at(&self, token: &str, now: u64) -> (r: Result<u128, TokenError>)
        ensures
            rs256_decoded(token@, self.verifying_key()) matches Ok(p) ==> r == match check_claims(
                payload_claims(p),
                TokenKind::Access,
                now,
            ) {
                Ok(c) => Ok(c.subject),
                Err(e) => Err(e),
            },
            rs256_decoded(token@, self.verifying_key()) is Err ==> r is Err,
    {
        match self.verify(token, TokenKind::Access, now) {
            Ok(c) => Ok(c.subject),
            Err(e) => Err(e),
        }
    }

    /// The subject of an access token valid now.
    pub fn decode_jwt_uuid(&self, token: &str) -> (r: Result<u128, TokenError>)
        ensures
            rs256_decoded(token@, self.verifying_key()) is Err ==> r is Err,
            r matches Ok(u) ==> exists|c: TokenClaims|
                c.subject == u && c.kind == TokenKind::Access && #[trigger] payload_claims(
                    rs256_decoded(token@, self.verifying_key())->Ok_0,
                ) == Some(c),
    {
        self.decode_jwt_uuid_at(token, now_seconds())
    }
}

/// The payload text of well-formed claims reads back as those claims.
pub proof fn lemma_payload_round_trip(c: TokenClaims)
    requires
        claims_wf(c),
    ensures
        payload_claims(claims_text(c)) == Some(c),
{
    let p = claims_text(c);
    let w = choose|c1: TokenClaims| claims_text(c1) == p && claims_wf(c1);
    crate::claims::lemma_claims_text_injective(w, c);
}

/// Kind separation: a token whose verified payload is that of a reset token is
/// refused as invalid by the access and refresh verifiers, at every instant,
/// and is accepted by the reset verifier until it expires.
pub proof fn lemma_reset_token_only_resets(subject: u128, issued: u64, now: u64)
    ensures
        check_claims(
            payload_claims(claims_text(spec_reset_claims(subject, issued))),
            TokenKind::Access,
            now,
        ) == Err::<TokenClaims, TokenError>(TokenError::TokenInvalid),
        check_claims(
            payload_claims(claims_text(spec_reset_claims(subject, issued))),
            TokenKind::Refresh,
            now,
        ) == Err::<TokenClaims, TokenError>(TokenError::TokenInvalid),
        now < expiry_after(issued, RESET_TTL) ==> check_claims(
            payload_claims(claims_text(spec_reset_claims(subject, issued))),
            TokenKind::Reset,
            now,
        ) == Ok::<TokenClaims, TokenError>(spec_reset_claims(subject, issued)),
        now >= expiry_after(issued, RESET_TTL) ==> check_claims(
            payload_claims(claims_text(spec_reset_claims(subject, issued))),
            TokenKind::Reset,
            now,
        ) == Err::<TokenClaims, TokenError>(TokenError::TokenExpired),
{
    lemma_payload_round_trip(spec_reset_claims(subject, issued));
}

/// Kind separation for the two other kinds: access and refresh payloads are
/// refused by every verifier but their own.
pub proof fn lemma_kinds_disjoint(c: TokenClaims, kind: TokenKind, now: u64)
    requires
        claims_wf(c),
        c.kind != kind,
    ensures
        check_claims(payload_claims(claims_text(c)), kind, now) == Err::<TokenClaims, TokenError>(
            TokenError::TokenInvalid,
        ),
{
    lemma_payload_round_trip(c);
}

/// An access token minted from verified refresh claims carries the same
/// subject and role, and its payload is accepted by the access verifier until
/// it expires.
pub proof fn lemma_access_from_refresh(c: TokenClaims, issued: u64, now: u64)
    requires
        claims_wf(c),
        c.kind == TokenKind::Refresh,
    ensures
        spec_access_claims(c.subject, c.role->Some_0, issued).subject == c.subject,
        spec_access_claims(c.subject, c.role->Some_0, issued).role == c.role,
        now < expiry_after(issued, ACCESS_TTL) ==> check_claims(
            payload_claims(claims_text(spec_access_claims(c.subject, c.role->Some_0, issued))),
            TokenKind::Access,
            now,
        ) == Ok::<TokenClaims, TokenError>(spec_access_claims(c.subject, c.role->Some_0, issued)),
{
    lemma_payload_round_trip(spec_access_claims(c.subject, c.role->Some_0, issued));
}

} // verus!
