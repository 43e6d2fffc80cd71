use vstd::prelude::*;
use crate::credentials::{password_verifies, verify_password};
use crate::datetime::utc_now;
use crate::repository::RepositoryError;
use crate::user::{User, UserView};
use crate::user_repository::UserRepository;

verus! {

/// How long a session token stays valid.
pub const SESSION_LIFETIME_SECONDS: u64 = 100_000;

/// The HS512 JSON web token with claims `sub` and `exp`, signed with `secret`.
pub uninterp spec fn hs512_token(subject: Seq<char>, expires: u64, secret: Seq<char>) -> Seq<char>;

/// Relies on jsonwebtoken::encode with an HS512 header and an HMAC key made
/// from `secret`, over a JSON object with the claims `sub` and `exp` built with
/// serde_json. The token depends on these three values alone. encode fails
/// only on a key of another family than the header's algorithm or on claims
/// that do not serialise, neither of which can happen here, and it joins the
/// encoded parts with dots, so the token is never empty.
#[verifier::external_body]
fn sign_session_token(subject: &str, expires: u64, secret: &str) -> (r: Option<String>)
    ensures
        r is Some,
        r matches Some(t) ==> t@ == hs512_token(subject@, expires, secret@) && t@.len() > 0,
{
    let mut claims = serde_json::Map::new();
    claims.insert("sub".to_string(), serde_json::Value::from(subject));
    claims.insert("exp".to_string(), serde_json::Value::from(expires));
    let header = jsonwebtoken::Header::new(jsonwebtoken::Algorithm::HS512);
    let key = jsonwebtoken::EncodingKey::from_secret(secret.as_bytes());
    jsonwebtoken::encode(&header, &serde_json::Value::Object(claims), &key).ok()
}

/// The identity that an authenticated request carries.
pub struct AuthenticatedUser {
    pub id: String,
}

pub struct CreateUserSessionRequest {
    pub email: String,
    pub password: String,
}

impl CreateUserSessionRequest {
    pub fn new(email: String, password: String) -> (r: Self)
        ensures
            r.email == email,
            r.password == password,
    {
        CreateUserSessionRequest { email, password }
    }
}

pub struct CreateUserSessionResponse {
    pub token: String,
}

impl CreateUserSessionResponse {
    pub fn new(token: String) -> (r: Self)
        ensures
            r.token == token,
    {
        CreateUserSessionResponse { token }
    }
}

pub enum CreateUserSessionError {
    InvalidCredentials(String),
}

/// `user` has an identifier and accepts `password`.
pub open spec fn may_sign_in(user: UserView, password: Seq<char>) -> bool {
    user.id is Some && password_verifies(password, user.password)
}

/// Some user of `users` with this e-mail address may sign in with `password`.
pub open spec fn some_may_sign_in(users: Seq<UserView>, email: Seq<char>, password: Seq<char>) -> bool {
    exists|u: UserView| users.contains(u) && u.email == email && may_sign_in(u, password)
}

/// The answer to a sign-in, given what the user directory answered for the
/// e-mail address: a token for the user found when the password matches and
/// the user has an identifier, and `"Invalid credentials"` in every other case,
/// a failed lookup included.
pub fn session_for(
    found: Result<Option<User>, RepositoryError>,
    password: &str,
    expires: u64,
    secret: &str,
) -> (r: Result<CreateUserSessionResponse, CreateUserSessionError>)
    ensures
        (r is Ok) <==> (found is Ok && found->Ok_0 is Some && may_sign_in(
            found->Ok_0->0@,
            password@,
        )),
        r matches Ok(resp) ==> resp.token@ == hs512_token(
            found->Ok_0->0@.id->0,
            expires,
            secret@,
        ) && resp.token@.len() > 0,
        r matches Err(CreateUserSessionError::InvalidCredentials(m)) ==> m@
            == "Invalid credentials"@,
{
    let user = match found {
        Ok(Some(u)) => u,
        _ => {
            return Err(CreateUserSessionError::InvalidCredentials("Invalid credentials".to_owned()));
        },
    };
    if !verify_password(password, user.password()) {
        return Err(CreateUserSessionError::InvalidCredentials("Invalid credentials".to_owned()));
    }
    match user.id() {
        Some(id) => match sign_session_token(id.as_str(), expires, secret) {
            Some(token) => Ok(CreateUserSessionResponse::new(token)),
            None => Err(CreateUserSessionError::InvalidCredentials("Invalid credentials".to_owned())),
        },
        None => Err(CreateUserSessionError::InvalidCredentials("Invalid credentials".to_owned())),
    }
}

/// Signs users in: checks an e-mail address and password against the user
/// directory and issues a signed session token.
pub struct CreateUserSessionUseCase<R: UserRepository> {
    pub user_repository: R,
    pub jwt_secret: String,
}

impl<R: UserRepository> CreateUserSessionUseCase<R> {
    pub fn new(user_repository: R, jwt_secret: String) -> (r: Self)
        ensures
            r.user_repository == user_repository,
            r.jwt_secret == jwt_secret,
    {
        CreateUserSessionUseCase { user_repository, jwt_secret }
    }

    /// A token for the user with this e-mail address, whose `sub` is the
    /// user's identifier and whose `exp` lies `SESSION_LIFETIME_SECONDS` ahead.
    pub fn execute(&self, request: CreateUserSessionRequest) -> (r: Result<
        CreateUserSessionResponse,
        CreateUserSessionError,
    >)
        requires
            self.user_repository.wf(),
        ensures
            r matches Ok(resp) ==> exists|u: UserView, expires: u64|
                {
                    &&& self.user_repository.users().contains(u)
                    &&& u.email == request.email@
                    &&& may_sign_in(u, request.password@)
                    &&& expires >= SESSION_LIFETIME_SECONDS
                    &&& resp.token@ == hs512_token(u.id->0, expires, self.jwt_secret@)
                },
            !some_may_sign_in(self.user_repository.users(), request.email@, request.password@)
                ==> (r matches Err(CreateUserSessionError::InvalidCredentials(m)) && m@
                == "Invalid credentials"@),
            r matches Ok(resp) ==> resp.token@.len() > 0,
            r matches Err(CreateUserSessionError::InvalidCredentials(m)) ==> m@
                == "Invalid credentials"@,
    {
        let (_, now) = utc_now();
        let expires = now as u64 + SESSION_LIFETIME_SECONDS;
        let found = self.user_repository.get_user_by_email(request.email);
        session_for(found, request.password.as_str(), expires, self.jwt_secret.as_str())
    }
}

} // verus!
