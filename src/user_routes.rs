//! The account routes: registering a user and logging in.
//!
//! Both wait on the user store between their decisions, so each is a state
//! machine taken by value: `start` gives the first request to the store, and
//! each answer is handed to `advance`, which gives the next request or the
//! response. Password hashing is argon2's and the clock is chrono's; the
//! token itself is signed by the caller.
use vstd::prelude::*;
use crate::model::User;
use crate::registration::random_id;

verus! {

/// The routes under the account prefix.
#[derive(Debug, Clone, Copy, PartialEq, Eq)]
pub enum UserRoute {
    Register,
    Login,
}

impl UserRoute {
    /// The path of the route below the account prefix.
    pub fn path(&self) -> (r: &'static str)
        ensures
            r == (match self {
                UserRoute::Register => "/register",
                UserRoute::Login => "/login",
            }),
    {
        match self {
            UserRoute::Register => "/register",
            UserRoute::Login => "/login",
        }
    }
}

/// Every account route, each once.
pub fn routes() -> (r: Vec<UserRoute>)
    ensures
        r@ == seq![UserRoute::Register, UserRoute::Login],
{
    let mut r: Vec<UserRoute> = Vec::new();
    r.push(UserRoute::Register);
    r.push(UserRoute::Login);
    assert(r@ =~= seq![UserRoute::Register, UserRoute::Login]);
    r
}

/// The body of a login request.
#[derive(Debug, Clone, PartialEq, Eq)]
pub struct LoginUserData {
    pub username: String,
    pub password: String,
}

/// The body of a registration request.
#[derive(Debug, Clone, PartialEq, Eq)]
pub struct RegisterUserData {
    pub username: String,
    pub password: String,
    pub email: String,
}

/// The claims of a login token.
#[derive(Debug, Clone, PartialEq, Eq)]
pub struct AuthToken {
    pub username: String,
    /// Expiration time, in seconds since the Unix epoch.
    pub exp: i64,
}

impl AuthToken {
    pub fn new(username: String, expiry: i64) -> (r: AuthToken)
        ensures
            r.username == username,
            r.exp == expiry,
    {
        AuthToken { username, exp: expiry }
    }
}

/// How long a login token is valid, in seconds.
pub const TOKEN_LIFETIME_SECS: i64 = 14400;

/// When a token issued at `now` expires; the largest time if that is past
/// the end of the representable range.
pub open spec fn spec_token_expiry(now: i64) -> i64 {
    if now > i64::MAX - TOKEN_LIFETIME_SECS {
        i64::MAX
    } else {
        (now + TOKEN_LIFETIME_SECS) as i64
    }
}

/// When a token issued at `now` expires.
pub fn token_expiry(now: i64) -> (r: i64)
    ensures
        r == spec_token_expiry(now),
{
    if now > i64::MAX - TOKEN_LIFETIME_SECS {
        i64::MAX
    } else {
        now + TOKEN_LIFETIME_SECS
    }
}

/// An error response of the account routes.
#[derive(Debug, Clone, Copy, PartialEq, Eq)]
pub struct ApiError {
    /// The HTTP status code.
    pub status: u16,
    /// A stable, machine-readable code.
    pub code: &'static str,
    pub explanation: &'static str,
}

/// The HTTP status of a successful response.
pub const STATUS_OK: u16 = 200;

pub open spec fn already_exists() -> ApiError {
    ApiError {
        status: 400,
        code: "AlreadyExists",
        explanation: "One of the unique parameters already exists",
    }
}

pub open spec fn internal_error() -> ApiError {
    ApiError { status: 500, code: "InternalError", explanation: "Unknown error. Contact administrator." }
}

pub open spec fn hashing_error() -> ApiError {
    ApiError {
        status: 500,
        code: "InternalError",
        explanation: "Unknown password hashing error. Contact administrator.",
    }
}

pub open spec fn verification_error() -> ApiError {
    ApiError {
        status: 500,
        code: "InternalError",
        explanation: "Unknown password verification error. Contact administrator.",
    }
}

pub open spec fn invalid_password() -> ApiError {
    ApiError { status: 401, code: "InvalidPassword", explanation: "Invalid password for the user." }
}

pub open spec fn user_not_found() -> ApiError {
    ApiError {
        status: 400,
        code: "UserNotFound",
        explanation: "User with specified username does not exist",
    }
}

impl ApiError {
    pub fn already_exists() -> (r: ApiError)
        ensures
            r == already_exists(),
    {
        ApiError {
            status: 400,
            code: "AlreadyExists",
            explanation: "One of the unique parameters already exists",
        }
    }

    pub fn internal_error() -> (r: ApiError)
        ensures
            r == internal_error(),
    {
        ApiError { status: 500, code: "InternalError", explanation: "Unknown error. Contact administrator." }
    }

    pub fn hashing_error() -> (r: ApiError)
        ensures
            r == hashing_error(),
    {
        ApiError {
            status: 500,
            code: "InternalError",
            explanation: "Unknown password hashing error. Contact administrator.",
        }
    }

    pub fn verification_error() -> (r: ApiError)
        ensures
            r == verification_error(),
    {
        ApiError {
            status: 500,
            code: "InternalError",
            explanation: "Unknown password verification error. Contact administrator.",
        }
    }

    pub fn invalid_password() -> (r: ApiError)
        ensures
            r == invalid_password(),
    {
        ApiError { status: 401, code: "InvalidPassword", explanation: "Invalid password for the user." }
    }

    pub fn user_not_found() -> (r: ApiError)
        ensures
            r == user_not_found(),
    {
        ApiError {
            status: 400,
            code: "UserNotFound",
            explanation: "User with specified username does not exist",
        }
    }
}

/// The HTTP status of a response.
pub fn response_status<T>(r: &Result<T, ApiError>) -> (s: u16)
    ensures
        s == (match r {
            Ok(_) => STATUS_OK,
            Err(e) => e.status,
        }),
{
    match r {
        Ok(_) => STATUS_OK,
        Err(e) => e.status,
    }
}

/// A password hash in PHC string form, as argon2 computes it with its
/// default parameters from a password and a B64 salt.
pub uninterp spec fn argon2_hash_of(password: Seq<char>, salt: Seq<char>) -> Seq<char>;

/// Relies on password-hash's `SaltString::generate` over the operating
/// system's generator: a fresh random B64 salt. Nothing is promised of its
/// value. It panics only where the operating system has no entropy to give.
#[verifier::external_body]
fn generate_salt() -> (r: String) {
    argon2::password_hash::SaltString::generate(&mut argon2::password_hash::rand_core::OsRng)
        .as_str()
        .to_string()
}

/// Relies on argon2's `hash_password` with `Argon2::default()`, the salt
/// read by `SaltString::from_b64`: the PHC string of the hash, which depends
/// on the password and the salt alone; `None` where the salt does not parse
/// or hashing fails.
#[verifier::external_body]
fn hash_password(password: &str, salt: &str) -> (r: Option<String>)
    ensures
        r matches Some(h) ==> h@ == argon2_hash_of(password@, salt@),
{
    let salt = argon2::password_hash::SaltString::from_b64(salt).ok()?;
    argon2::PasswordHasher::hash_password(&argon2::Argon2::default(), password.as_bytes(), &salt)
        .ok()
        .map(|h| h.to_string())
}

/// What checking a password against a stored hash found.
#[derive(Debug, Clone, Copy, PartialEq, Eq)]
pub enum PasswordCheck {
    /// The password hashes to the stored hash.
    Match,
    /// It does not.
    Mismatch,
    /// The stored hash is not a PHC string.
    MalformedHash,
    /// Verification failed for another reason.
    Failed,
}

/// The outcome of checking a password against a PHC hash string.
pub uninterp spec fn password_check_of(password: Seq<char>, phc: Seq<char>) -> PasswordCheck;

/// Relies on argon2's `verify_password` with `Argon2::default()`, the hash
/// read by `PasswordHash::new`: its outcome depends on the password and the
/// hash string alone.
#[verifier::external_body]
fn check_password(password: &str, phc: &str) -> (r: PasswordCheck)
    ensures
        r == password_check_of(password@, phc@),
{
    let hash = match argon2::PasswordHash::new(phc) {
        Ok(h) => h,
        Err(_) => return PasswordCheck::MalformedHash,
    };
    match argon2::PasswordVerifier::verify_password(
        &argon2::Argon2::default(),
        password.as_bytes(),
        &hash,
    ) {
        Ok(()) => PasswordCheck::Match,
        Err(argon2::password_hash::Error::Password) => PasswordCheck::Mismatch,
        Err(_) => PasswordCheck::Failed,
    }
}

/// Relies on chrono's `Utc::now().timestamp()`: the current time in whole
/// seconds since the Unix epoch. Nothing is promised of its value. It panics
/// only where the system clock reads before the epoch.
#[verifier::external_body]
fn now_unix_seconds() -> (r: i64) {
    chrono::Utc::now().timestamp()
}

/// The user store's answer to the last request of a registration.
#[derive(Debug, Clone, Copy, PartialEq, Eq)]
pub enum UserStoreEvent {
    /// This many users hold the asked user id.
    Counted(i64),
    /// Counting failed.
    CountFailed,
    /// The user row was inserted.
    Inserted,
    /// The insert broke a uniqueness constraint.
    UniqueViolation,
    /// The insert failed for another reason.
    InsertFailed,
}

/// What a registration asks for next.
#[derive(Debug, PartialEq, Eq)]
pub enum UserRegistrationAction {
    /// Count the users that hold this id.
    CountUsersWithId([u8; 16]),
    /// Insert this user row.
    InsertUser(User),
    /// Send this response.
    Respond(Result<(), ApiError>),
}

/// Where a registration stands.
#[derive(Debug, PartialEq, Eq)]
pub enum UserRegistration {
    /// Looking for a free user id for this row.
    Counting(User),
    /// The row is being inserted.
    Inserting,
    Finished,
}

impl UserRegistration {
    /// The registration of `data` with the hashed password `password_hash`,
    /// trying `user_id` first.
    pub open spec fn spec_begin(data: RegisterUserData, password_hash: String, user_id: [u8; 16]) -> (
        UserRegistration,
        UserRegistrationAction,
    ) {
        (
            UserRegistration::Counting(
                User { user_id, username: data.username, password: password_hash, email: data.email },
            ),
            UserRegistrationAction::CountUsersWithId(user_id),
        )
    }

    pub open spec fn finished(response: Result<(), ApiError>) -> (
        UserRegistration,
        UserRegistrationAction,
    ) {
        (UserRegistration::Finished, UserRegistrationAction::Respond(response))
    }

    /// The registration after the store answered `event`; `fresh` is the
    /// user id to try if the last one is taken.
    pub open spec fn spec_advance(self, event: UserStoreEvent, fresh: [u8; 16]) -> (
        UserRegistration,
        UserRegistrationAction,
    ) {
        match self {
            UserRegistration::Counting(user) => match event {
                UserStoreEvent::Counted(n) => if n == 0 {
                    (UserRegistration::Inserting, UserRegistrationAction::InsertUser(user))
                } else {
                    (
                        UserRegistration::Counting(
                            User {
                                user_id: fresh,
                                username: user.username,
                                password: user.password,
                                email: user.email,
                            },
                        ),
                        UserRegistrationAction::CountUsersWithId(fresh),
                    )
                },
                UserStoreEvent::CountFailed => (
                    UserRegistration::Inserting,
                    UserRegistrationAction::InsertUser(user),
                ),
                _ => Self::finished(Err(internal_error())),
            },
            UserRegistration::Inserting => match event {
                UserStoreEvent::Inserted => Self::finished(Ok(())),
                UserStoreEvent::UniqueViolation => Self::finished(Err(already_exists())),
                _ => Self::finished(Err(internal_error())),
            },
            UserRegistration::Finished => Self::finished(Err(internal_error())),
        }
    }

    /// Starts the registration of `data` with an already hashed password.
    pub fn begin(data: RegisterUserData, password_hash: String, user_id: [u8; 16]) -> (r: (
        UserRegistration,
        UserRegistrationAction,
    ))
        ensures
            r == Self::spec_begin(data, password_hash, user_id),
    {
        (
            UserRegistration::Counting(
                User { user_id, username: data.username, password: password_hash, email: data.email },
            ),
            UserRegistrationAction::CountUsersWithId(user_id),
        )
    }

    /// Starts the registration of `data`: hashes the password under a fresh
    /// salt and draws a user id to try. If hashing fails, the registration
    /// ends at once with an internal error.
    pub fn start(data: RegisterUserData) -> (r: (UserRegistration, UserRegistrationAction))
        ensures
            r == Self::finished(Err(hashing_error())) || exists|
                salt: Seq<char>,
                password_hash: String,
                user_id: [u8; 16],
            |
                password_hash@ == argon2_hash_of(data.password@, salt) && r == Self::spec_begin(
                    data,
                    password_hash,
                    user_id,
                ),
    {
        let salt = generate_salt();
        match hash_password(data.password.as_str(), salt.as_str()) {
            Some(h) => {
                let id = random_id();
                let r = Self::begin(data, h, id);
                assert(h@ == argon2_hash_of(data.password@, salt@) && r == Self::spec_begin(
                    data,
                    h,
                    id,
                ));
                r
            },
            None => (UserRegistration::Finished, UserRegistrationAction::Respond(Err(ApiError::hashing_error()))),
        }
    }

    /// Hands the store's answer `event` to the registration; `fresh` is the
    /// user id to try if the last one is taken.
    pub fn advance(self, event: UserStoreEvent, fresh: [u8; 16]) -> (r: (
        UserRegistration,
        UserRegistrationAction,
    ))
        ensures
            r == self.spec_advance(event, fresh),
    {
        match self {
            UserRegistration::Counting(user) => match event {
                UserStoreEvent::Counted(n) => if n == 0 {
                    (UserRegistration::Inserting, UserRegistrationAction::InsertUser(user))
                } else {
                    (
                        UserRegistration::Counting(
                            User {
                                user_id: fresh,
                                username: user.username,
                                password: user.password,
                                email: user.email,
                            },
                        ),
                        UserRegistrationAction::CountUsersWithId(fresh),
                    )
                },
                UserStoreEvent::CountFailed => (
                    UserRegistration::Inserting,
                    UserRegistrationAction::InsertUser(user),
                ),
                _ => (
                    UserRegistration::Finished,
                    UserRegistrationAction::Respond(Err(ApiError::internal_error())),
                ),
            },
            UserRegistration::Inserting => match event {
                UserStoreEvent::Inserted => (
                    UserRegistration::Finished,
                    UserRegistrationAction::Respond(Ok(())),
                ),
                UserStoreEvent::UniqueViolation => (
                    UserRegistration::Finished,
                    UserRegistrationAction::Respond(Err(ApiError::already_exists())),
                ),
                _ => (
                    UserRegistration::Finished,
                    UserRegistrationAction::Respond(Err(ApiError::internal_error())),
                ),
            },
            UserRegistration::Finished => (
                UserRegistration::Finished,
                UserRegistrationAction::Respond(Err(ApiError::internal_error())),
            ),
        }
    }

    /// Hands the store's answer `event` to the registration, drawing a new
    /// user id for the case that the last one is taken.
    pub fn step(self, event: UserStoreEvent) -> (r: (UserRegistration, UserRegistrationAction))
        ensures
            exists|fresh: [u8; 16]| r == self.spec_advance(event, fresh),
    {
        let fresh = random_id();
        let ghost old_self = self;
        let r = self.advance(event, fresh);
        assert(r == old_self.spec_advance(event, fresh));
        r
    }
}

/// The user store's or the token signer's answer to the last request of a
/// login.
#[derive(Debug, Clone, PartialEq, Eq)]
pub enum LoginEvent {
    /// The user with the asked name.
    UserFound(User),
    UserNotFound,
    /// The lookup failed.
    LookupFailed,
    /// The signed token.
    TokenIssued(String),
    /// Signing failed.
    TokenFailed,
}

/// What a login asks for next.
#[derive(Debug, PartialEq, Eq)]
pub enum LoginAction {
    /// Look up the user with this name.
    FindUserByName(String),
    /// Sign a token with these claims.
    IssueToken(AuthToken),
    /// Send this response: the signed token, or an error.
    Respond(Result<String, ApiError>),
}

/// Where a login stands.
#[derive(Debug, PartialEq, Eq)]
pub enum Login {
    /// Waiting for the user; holds the password to check.
    AwaitingUser(String),
    /// Waiting for the signed token.
    AwaitingToken,
    Finished,
}

impl Login {
    pub open spec fn finished(response: Result<String, ApiError>) -> (Login, LoginAction) {
        (Login::Finished, LoginAction::Respond(response))
    }

    /// Where a password check leads for the user `username` at time `now`.
    pub open spec fn spec_verdict(check: PasswordCheck, username: String, now: i64) -> (
        Login,
        LoginAction,
    ) {
        match check {
            PasswordCheck::Match => (
                Login::AwaitingToken,
                LoginAction::IssueToken(AuthToken { username, exp: spec_token_expiry(now) }),
            ),
            PasswordCheck::Mismatch => Self::finished(Err(invalid_password())),
            PasswordCheck::MalformedHash => Self::finished(Err(hashing_error())),
            PasswordCheck::Failed => Self::finished(Err(verification_error())),
        }
    }

    /// The login after `event`; `now` is the time at which a token would be
    /// issued.
    pub open spec fn spec_advance(self, event: LoginEvent, now: i64) -> (Login, LoginAction) {
        match self {
            Login::AwaitingUser(password) => match event {
                LoginEvent::UserFound(user) => Self::spec_verdict(
                    password_check_of(password@, user.password@),
                    user.username,
                    now,
                ),
                LoginEvent::UserNotFound => Self::finished(Err(user_not_found())),
                _ => Self::finished(Err(internal_error())),
            },
            Login::AwaitingToken => match event {
                LoginEvent::TokenIssued(token) => Self::finished(Ok(token)),
                _ => Self::finished(Err(internal_error())),
            },
            Login::Finished => Self::finished(Err(internal_error())),
        }
    }

    /// Starts the login of `data`: look its user up by name.
    pub fn start(data: LoginUserData) -> (r: (Login, LoginAction))
        ensures
            r == (Login::AwaitingUser(data.password), LoginAction::FindUserByName(data.username)),
    {
        (Login::AwaitingUser(data.password), LoginAction::FindUserByName(data.username))
    }

    /// Decides on the outcome `check` of the password check of `username`
    /// at time `now`: a match issues a token that expires a token lifetime
    /// later, anything else is refused.
    pub fn verdict(check: PasswordCheck, username: String, now: i64) -> (r: (Login, LoginAction))
        ensures
            r == Self::spec_verdict(check, username, now),
    {
        match check {
            PasswordCheck::Match => (
                Login::AwaitingToken,
                LoginAction::IssueToken(AuthToken::new(username, token_expiry(now))),
            ),
            PasswordCheck::Mismatch => (
                Login::Finished,
                LoginAction::Respond(Err(ApiError::invalid_password())),
            ),
            PasswordCheck::MalformedHash => (
                Login::Finished,
                LoginAction::Respond(Err(ApiError::hashing_error())),
            ),
            PasswordCheck::Failed => (
                Login::Finished,
                LoginAction::Respond(Err(ApiError::verification_error())),
            ),
        }
    }

    /// Hands `event` to the login; `now` is the time at which a token would
    /// be issued.
    pub fn advance(self, event: LoginEvent, now: i64) -> (r: (Login, LoginAction))
        ensures
            r == self.spec_advance(event, now),
    {
        match self {
            Login::AwaitingUser(password) => match event {
                LoginEvent::UserFound(user) => {
                    let check = check_password(password.as_str(), user.password.as_str());
                    Self::verdict(check, user.username, now)
                },
                LoginEvent::UserNotFound => (
                    Login::Finished,
                    LoginAction::Respond(Err(ApiError::user_not_found())),
                ),
                _ => (Login::Finished, LoginAction::Respond(Err(ApiError::internal_error()))),
            },
            Login::AwaitingToken => match event {
                LoginEvent::TokenIssued(token) => (Login::Finished, LoginAction::Respond(Ok(token))),
                _ => (Login::Finished, LoginAction::Respond(Err(ApiError::internal_error()))),
            },
            Login::Finished => (Login::Finished, LoginAction::Respond(Err(ApiError::internal_error()))),
        }
    }

    /// Hands `event` to the login, reading the clock for the case that a
    /// token is issued.
    pub fn step(self, event: LoginEvent) -> (r: (Login, LoginAction))
        ensures
            exists|now: i64| r == self.spec_advance(event, now),
    {
        let now = now_unix_seconds();
        let ghost old_self = self;
        let ghost old_event = event;
        let r = self.advance(event, now);
        assert(r == old_self.spec_advance(old_event, now));
        r
    }
}

} // verus!
