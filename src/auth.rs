use vstd::prelude::*;
use crate::claims::{claims_text, payload_claims};
use crate::directory::{
    NewUser, UserDirectory, UserRecord, DirectoryError, DEFAULT_ROLE_ID, email_taken, email_position,
    uuid_taken, user_by_email, users_unique, registered_record, with_password,
    with_last_login,
};
use crate::hasher::{argon2_verdict, hash_password, verify_password};
use crate::mail::{
    MailSubject, OutgoingMail, new_user_register_template, password_reset_template, register_mail_body,
    reset_mail_body,
};
use crate::role::{Role, role_of_id};
use crate::token::{
    TokenAuthority, check_claims, rs256_jwt, rs256_decoded, spec_access_claims,
    spec_refresh_claims, spec_reset_claims,
};
use crate::claims::TokenKind;

verus! {

/// Failures of the authentication service, before they are mapped to the
/// transport's status codes.
#[derive(Debug, Clone, Copy, PartialEq, Eq, Structural)]
pub enum AuthError {
    InvalidCredentials,
    DatabaseError,
    PasswordHashError,
    JwtGenerationError,
    UserAlreadyExists,
    InvalidToken,
    InvalidRole,
    EmailSendError,
    MissingConfigError,
    EmailTimeoutError,
}

/// The one table from failure kind to the status code the boundary reports.
/// Credential and token failures share one code, so that a response never
/// tells whether an email is registered.
pub open spec fn auth_status(e: AuthError) -> u16 {
    match e {
        AuthError::InvalidCredentials => 401,
        AuthError::InvalidToken => 401,
        AuthError::InvalidRole => 401,
        AuthError::UserAlreadyExists => 409,
        AuthError::PasswordHashError => 400,
        AuthError::DatabaseError => 500,
        AuthError::JwtGenerationError => 500,
        AuthError::EmailSendError => 500,
        AuthError::MissingConfigError => 500,
        AuthError::EmailTimeoutError => 504,
    }
}

impl AuthError {
    /// The status code the boundary reports for this failure.
    pub fn status_code(&self) -> (r: u16)
        ensures
            r == auth_status(*self),
    {
        match self {
            AuthError::InvalidCredentials => 401,
            AuthError::InvalidToken => 401,
            AuthError::InvalidRole => 401,
            AuthError::UserAlreadyExists => 409,
            AuthError::PasswordHashError => 400,
            AuthError::DatabaseError => 500,
            AuthError::JwtGenerationError => 500,
            AuthError::EmailSendError => 500,
            AuthError::MissingConfigError => 500,
            AuthError::EmailTimeoutError => 504,
        }
    }
}

/// Login request: an email and a password.
pub struct AuthUser {
    pub email: String,
    pub password: String,
}

/// Registration request. A requested role is ignored: new accounts always
/// get the least privileged role.
pub struct CreateUser {
    pub username: String,
    pub email: String,
    pub password: String,
    pub is_accepted_terms: bool,
    pub role_id: Option<i32>,
    pub timezone: String,
}

/// Request for a password-reset email.
pub struct ResetPasswordRequest {
    pub email: String,
}

/// Completion of a password reset: the reset token and the new password.
pub struct ResetPasswordData {
    pub token: String,
    pub new_password: String,
}

impl From<CreateUser> for NewUser {
    fn from(u: CreateUser) -> (r: NewUser) {
        NewUser {
            username: u.username,
            email: u.email,
            password: u.password,
            is_accepted_terms: u.is_accepted_terms,
            timezone: u.timezone,
        }
    }
}

impl vstd::std_specs::convert::FromSpecImpl<CreateUser> for NewUser {
    open spec fn obeys_from_spec() -> bool {
        true
    }

    open spec fn from_spec(u: CreateUser) -> NewUser {
        NewUser {
            username: u.username,
            email: u.email,
            password: u.password,
            is_accepted_terms: u.is_accepted_terms,
            timezone: u.timezone,
        }
    }
}

/// The token pair handed out on login and registration.
pub struct AuthTokens {
    pub access_token: String,
    pub refresh_token: String,
}

/// What a login attempt decides before any token is made: the account, or
/// why the credentials are refused.
pub open spec fn login_check(users: Seq<UserRecord>, email: Seq<char>, password: Seq<char>) -> Result<
    UserRecord,
    AuthError,
> {
    match user_by_email(users, email) {
        None => Err(AuthError::InvalidCredentials),
        Some(u) => match argon2_verdict(password, u.password@) {
            None => Err(AuthError::PasswordHashError),
            Some(false) => Err(AuthError::InvalidCredentials),
            Some(true) => Ok(u),
        },
    }
}

/// The access token issued to account `u` at instant `now` under `key`.
pub open spec fn access_token_for(u: UserRecord, now: u64, key: Seq<u8>) -> Option<Seq<char>> {
    rs256_jwt(claims_text(spec_access_claims(u.uuid_user, role_of_id(u.role_id), now)), key)
}

/// The refresh token issued to account `u` at instant `now` under `key`.
pub open spec fn refresh_token_for(u: UserRecord, now: u64, key: Seq<u8>) -> Option<Seq<char>> {
    rs256_jwt(claims_text(spec_refresh_claims(u.uuid_user, role_of_id(u.role_id), now)), key)
}

/// Relies on `uuid::Uuid::new_v4`: a random version-4 identifier, as an
/// integer.
#[verifier::external_body]
fn new_uuid() -> u128 {
    uuid::Uuid::new_v4().as_u128()
}

/// The message telling the administrator at `admin_email` that `username`
/// registered with `user_email`. Sending it is best-effort and never undoes
/// the registration.
pub fn notify_admin_new_user(admin_email: &str, username: &str, user_email: &str) -> (r: OutgoingMail)
    ensures
        r.to@ == admin_email@,
        r.subject == MailSubject::NewUserRegistered,
        r.body@ == register_mail_body(username@, user_email@),
{
    OutgoingMail {
        to: admin_email.to_owned(),
        subject: MailSubject::NewUserRegistered,
        body: new_user_register_template(username, user_email),
    }
}

/// Login, registration, token refresh and password reset over a user
/// directory.
pub struct UserService {
    pub authority: TokenAuthority,
    pub directory: UserDirectory,
}

impl UserService {
    /// A service signing with `authority` over the accounts in `directory`.
    pub fn new(authority: TokenAuthority, directory: UserDirectory) -> (r: UserService)
        ensures
            r.authority == authority,
            r.directory == directory,
    {
        UserService { authority, directory }
    }

    /// Logs in with `email` and `password` at instant `now`: on success the
    /// account's login time is recorded and an access and a refresh token
    /// are issued. An unknown email and a wrong password fail alike.
    pub fn authenticate(&mut self, email: &str, password: &str, now: u64) -> (r: Result<
        AuthTokens,
        AuthError,
    >)
        requires
            old(self).directory.wf(),
        ensures
            final(self).directory.wf(),
            final(self).authority == old(self).authority,
            login_check(old(self).directory@, email@, password@) matches Err(e) ==> r == Err::<
                AuthTokens,
                AuthError,
            >(e),
            r is Err ==> final(self).directory@ == old(self).directory@,
            login_check(old(self).directory@, email@, password@) matches Ok(u) ==> {
                let key = old(self).authority.signing_key();
                &&& (access_token_for(u, now, key) is Some && refresh_token_for(u, now, key) is Some)
                    ==> r is Ok
                &&& (access_token_for(u, now, key) is None || refresh_token_for(u, now, key) is None)
                    ==> r == Err::<AuthTokens, AuthError>(AuthError::JwtGenerationError)
                &&& r matches Ok(t) ==> {
                    let i = email_position(old(self).directory@, email@);
                    &&& access_token_for(u, now, key) == Some(t.access_token@)
                    &&& refresh_token_for(u, now, key) == Some(t.refresh_token@)
                    &&& final(self).directory@.len() == old(self).directory@.len()
                    &&& forall|j: int|
                        0 <= j < old(self).directory@.len() && j != i ==> final(self).directory@[j]
                            == old(self).directory@[j]
                    &&& with_last_login(old(self).directory@[i], final(self).directory@[i], now)
                }
            },
    {
        let i = match self.directory.find_by_email(email) {
            None => {
                return Err(AuthError::InvalidCredentials);
            },
            Some(i) => i,
        };
        let u = self.directory.get(i);
        let matches = match verify_password(password, u.password.as_str()) {
            Err(_) => {
                return Err(AuthError::PasswordHashError);
            },
            Ok(b) => b,
        };
        if !matches {
            return Err(AuthError::InvalidCredentials);
        }
        let role = Role::from_id(u.role_id);
        let subject = u.uuid_user;
        let access_token = match self.authority.generate_jwt_at(subject, role, now) {
            Ok(t) => t,
            Err(_) => {
                return Err(AuthError::JwtGenerationError);
            },
        };
        let refresh_token = match self.authority.generate_refresh_token_at(subject, role, now) {
            Ok(t) => t,
            Err(_) => {
                return Err(AuthError::JwtGenerationError);
            },
        };
        self.directory.update_last_login(i, now);
        Ok(AuthTokens { access_token, refresh_token })
    }

    /// Registers `new_user` at instant `now` with the least privileged role:
    /// the password is hashed, the account stored, and then an access and a
    /// refresh token are issued. A taken email is refused before anything is
    /// stored; a failure to sign comes after the account is stored and leaves
    /// it there.
    pub fn create_user(&mut self, new_user: NewUser, now: u64) -> (r: Result<AuthTokens, AuthError>)
        requires
            old(self).directory.wf(),
        ensures
            final(self).directory.wf(),
            final(self).authority == old(self).authority,
            email_taken(old(self).directory@, new_user.email@) ==> r == Err::<AuthTokens, AuthError>(
                AuthError::UserAlreadyExists,
            ),
            !email_taken(old(self).directory@, new_user.email@) ==> r is Ok || r == Err::<
                AuthTokens,
                AuthError,
            >(AuthError::PasswordHashError) || r == Err::<AuthTokens, AuthError>(
                AuthError::DatabaseError,
            ) || r == Err::<AuthTokens, AuthError>(AuthError::JwtGenerationError),
            r is Err && r != Err::<AuthTokens, AuthError>(AuthError::JwtGenerationError)
                ==> final(self).directory@ == old(self).directory@,
            r == Err::<AuthTokens, AuthError>(AuthError::DatabaseError) ==> old(
                self,
            ).directory.ids_exhausted() || exists|x: u128| uuid_taken(old(self).directory@, x),
            r is Ok || r == Err::<AuthTokens, AuthError>(AuthError::JwtGenerationError) ==> {
                let n = old(self).directory@.len();
                let u = final(self).directory@[n as int];
                &&& final(self).directory@.len() == n + 1
                &&& final(self).directory@.subrange(0, n as int) == old(self).directory@
                &&& (registered_record(new_user, u.uuid_user, u.id, u.password@, now))(u)
                &&& argon2_verdict(new_user.password@, u.password@) == Some(true)
                &&& (r is Ok <==> (access_token_for(u, now, old(self).authority.signing_key()) is Some
                    && refresh_token_for(u, now, old(self).authority.signing_key()) is Some))
            },
            r matches Ok(t) ==> {
                let u = final(self).directory@[old(self).directory@.len() as int];
                &&& access_token_for(u, now, old(self).authority.signing_key()) == Some(
                    t.access_token@,
                )
                &&& refresh_token_for(u, now, old(self).authority.signing_key()) == Some(
                    t.refresh_token@,
                )
            },
    {
        if self.directory.find_by_email(new_user.email.as_str()).is_some() {
            return Err(AuthError::UserAlreadyExists);
        }
        let hash = match hash_password(new_user.password.as_str()) {
            Ok(h) => h,
            Err(_) => {
                return Err(AuthError::PasswordHashError);
            },
        };
        let ghost password = new_user.password@;
        let ghost h = hash@;
        let uuid = new_uuid();
        let i = match self.directory.create(new_user, uuid, hash, now) {
            Ok(i) => i,
            Err(DirectoryError::EmailTaken) => {
                return Err(AuthError::UserAlreadyExists);
            },
            Err(_) => {
                return Err(AuthError::DatabaseError);
            },
        };
        let role = Role::from_id(DEFAULT_ROLE_ID);
        let access_token = match self.authority.generate_jwt_at(uuid, role, now) {
            Ok(t) => t,
            Err(_) => {
                return Err(AuthError::JwtGenerationError);
            },
        };
        let refresh_token = match self.authority.generate_refresh_token_at(uuid, role, now) {
            Ok(t) => t,
            Err(_) => {
                return Err(AuthError::JwtGenerationError);
            },
        };
        Ok(AuthTokens { access_token, refresh_token })
    }

    /// Mints a new access token at instant `now` from a refresh token, with
    /// the subject and role the refresh token carries. The directory is not
    /// consulted.
    pub fn refresh_jwt(&self, refresh_token: &str, now: u64) -> (r: Result<String, AuthError>)
        ensures
            rs256_decoded(refresh_token@, self.authority.verifying_key()) is Err ==> r == Err::<
                String,
                AuthError,
            >(AuthError::InvalidToken),
            rs256_decoded(refresh_token@, self.authority.verifying_key()) matches Ok(p) ==> match check_claims(
                payload_claims(p),
                TokenKind::Refresh,
                now,
            ) {
                Err(_) => r == Err::<String, AuthError>(AuthError::InvalidToken),
                Ok(c) => {
                    let fresh = rs256_jwt(
                        claims_text(spec_access_claims(c.subject, c.role->Some_0, now)),
                        self.authority.signing_key(),
                    );
                    &&& fresh matches Some(t) ==> (r matches Ok(x) && x@ == t)
                    &&& fresh is None ==> r == Err::<String, AuthError>(AuthError::JwtGenerationError)
                },
            },
    {
        let claims = match self.authority.verify(refresh_token, TokenKind::Refresh, now) {
            Ok(c) => c,
            Err(_) => {
                return Err(AuthError::InvalidToken);
            },
        };
        let role = match claims.role {
            Some(role) => role,
            None => {
                return Err(AuthError::InvalidRole);
            },
        };
        match self.authority.generate_jwt_at(claims.subject, role, now) {
            Ok(t) => Ok(t),
            Err(_) => Err(AuthError::JwtGenerationError),
        }
    }

    /// Prepares, at instant `now`, the password-reset message for the account
    /// registered under `email`, with a link to the front end at
    /// `frontend_url` carrying a fresh reset token. The caller dispatches it,
    /// under a timeout.
    pub fn send_password_reset_email(&self, email: &str, frontend_url: &str, now: u64) -> (r: Result<
        OutgoingMail,
        AuthError,
    >)
        requires
            self.directory.wf(),
        ensures
            user_by_email(self.directory@, email@) is None ==> r == Err::<OutgoingMail, AuthError>(
                AuthError::InvalidCredentials,
            ),
            user_by_email(self.directory@, email@) matches Some(u) ==> {
                let token = rs256_jwt(
                    claims_text(spec_reset_claims(u.uuid_user, now)),
                    self.authority.signing_key(),
                );
                &&& token is None ==> r == Err::<OutgoingMail, AuthError>(
                    AuthError::JwtGenerationError,
                )
                &&& token matches Some(t) ==> (r matches Ok(m) && m.to@ == email@ && m.subject
                    == MailSubject::PasswordReset && m.body@ == reset_mail_body(frontend_url@, t))
            },
    {
        let i = match self.directory.find_by_email(email) {
            None => {
                return Err(AuthError::InvalidCredentials);
            },
            Some(i) => i,
        };
        let subject = self.directory.get(i).uuid_user;
        let token = match self.authority.generate_reset_token_at(subject, now) {
            Ok(t) => t,
            Err(_) => {
                return Err(AuthError::JwtGenerationError);
            },
        };
        Ok(
            OutgoingMail {
                to: email.to_owned(),
                subject: MailSubject::PasswordReset,
                body: password_reset_template(frontend_url, token.as_str()),
            },
        )
    }

    /// Completes a password reset at instant `now`: only a valid reset token
    /// is accepted, and the account it names gets the hash of `new_password`.
    /// The token is not consumed: it stays usable until it expires, and
    /// tokens issued before the reset stay valid too.
    pub fn reset_password(&mut self, token: &str, new_password: &str, now: u64) -> (r: Result<
        (),
        AuthError,
    >)
        requires
            old(self).directory.wf(),
        ensures
            final(self).directory.wf(),
            final(self).authority == old(self).authority,
            r is Err ==> final(self).directory@ == old(self).directory@,
            rs256_decoded(token@, old(self).authority.verifying_key()) is Err ==> r == Err::<
                (),
                AuthError,
            >(AuthError::InvalidToken),
            rs256_decoded(token@, old(self).authority.verifying_key()) matches Ok(p) ==> match check_claims(
                payload_claims(p),
                TokenKind::Reset,
                now,
            ) {
                Err(_) => r == Err::<(), AuthError>(AuthError::InvalidToken),
                Ok(c) => if !uuid_taken(old(self).directory@, c.subject) {
                    r == Err::<(), AuthError>(AuthError::DatabaseError)
                } else {
                    r is Ok || r == Err::<(), AuthError>(AuthError::PasswordHashError)
                },
            },
            r is Ok ==> exists|i: int|
                0 <= i < old(self).directory@.len() && {
                    &&& final(self).directory@.len() == old(self).directory@.len()
                    &&& forall|j: int|
                        0 <= j < old(self).directory@.len() && j != i ==> final(self).directory@[j]
                            == old(self).directory@[j]
                    &&& with_password(
                        old(self).directory@[i],
                        #[trigger] final(self).directory@[i],
                        final(self).directory@[i].password@,
                    )
                    &&& argon2_verdict(new_password@, final(self).directory@[i].password@) == Some(
                        true,
                    )
                    &&& rs256_decoded(token@, old(self).authority.verifying_key()) matches Ok(p)
                        && payload_claims(p) matches Some(c) && c.subject == old(self).directory@[i].uuid_user
                },
    {
        let claims = match self.authority.verify(token, TokenKind::Reset, now) {
            Ok(c) => c,
            Err(_) => {
                return Err(AuthError::InvalidToken);
            },
        };
        let i = match self.directory.find_by_uuid(claims.subject) {
            Some(i) => i,
            None => {
                return Err(AuthError::DatabaseError);
            },
        };
        let hash = match hash_password(new_password) {
            Ok(h) => h,
            Err(_) => {
                return Err(AuthError::PasswordHashError);
            },
        };
        let ghost before = self.directory@;
        self.directory.update_password(i, hash);
        proof {
            let p = rs256_decoded(token@, self.authority.verifying_key());
            assert(p is Ok);
            assert(payload_claims(p->Ok_0) == Some(claims));
            assert(with_password(before[i as int], self.directory@[i as int], self.directory@[i as int].password@));
        }
        Ok(())
    }
}

/// An account stored by a registration logs in with the password it was
/// registered with, and the access token it then gets names that account's
/// identifier as its subject.
pub proof fn lemma_register_then_login(
    before: Seq<UserRecord>,
    after: Seq<UserRecord>,
    password: Seq<char>,
    now: u64,
)
    requires
        users_unique(after),
        after.len() == before.len() + 1,
        after.subrange(0, before.len() as int) == before,
        argon2_verdict(password, after[before.len() as int].password@) == Some(true),
    ensures
        login_check(after, after[before.len() as int].email@, password) == Ok::<UserRecord, AuthError>(
            after[before.len() as int],
        ),
        spec_access_claims(
            after[before.len() as int].uuid_user,
            role_of_id(after[before.len() as int].role_id),
            now,
        ).subject == after[before.len() as int].uuid_user,
{
    let n = before.len() as int;
    let e = after[n].email@;
    assert(email_taken(after, e));
    let p = email_position(after, e);
    if p != n {
        assert(after[p].email@ != after[n].email@);
    }
}

/// Once a registration has stored an account, its email is taken: a second
/// registration with the same email is refused with `UserAlreadyExists` and
/// leaves the directory as it was.
pub proof fn lemma_register_twice(before: Seq<UserRecord>, after: Seq<UserRecord>, email: Seq<char>)
    requires
        after.len() == before.len() + 1,
        after[before.len() as int].email@ == email,
    ensures
        email_taken(after, email),
{
    assert(after[before.len() as int].email@ == email);
}

/// After a completed reset, the new password logs in to the account.
pub proof fn lemma_reset_then_login(
    before: Seq<UserRecord>,
    after: Seq<UserRecord>,
    i: int,
    new_password: Seq<char>,
)
    requires
        users_unique(after),
        0 <= i < before.len(),
        after.len() == before.len(),
        forall|j: int| 0 <= j < before.len() && j != i ==> after[j] == before[j],
        with_password(before[i], after[i], after[i].password@),
        argon2_verdict(new_password, after[i].password@) == Some(true),
    ensures
        login_check(after, before[i].email@, new_password) == Ok::<UserRecord, AuthError>(after[i]),
{
    let e = before[i].email@;
    assert(after[i].email@ == e);
    assert(email_taken(after, e));
    let p = email_position(after, e);
    if p != i {
        assert(after[p].email@ != after[i].email@);
    }
}

} // verus!
