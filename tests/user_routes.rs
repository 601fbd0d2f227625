use device_bridge::model::User;
use device_bridge::user_routes::{
    response_status, routes, token_expiry, ApiError, AuthToken, Login, LoginAction, LoginEvent,
    LoginUserData, PasswordCheck, RegisterUserData, UserRegistration, UserRegistrationAction,
    UserRoute, UserStoreEvent, STATUS_OK,
};

/// Runs a registration against an in-memory user table that enforces unique
/// ids, names and emails.
fn register(table: &mut Vec<User>, data: RegisterUserData) -> Result<(), ApiError> {
    let (mut state, mut action) = UserRegistration::start(data);
    loop {
        let event = match action {
            UserRegistrationAction::CountUsersWithId(id) => {
                UserStoreEvent::Counted(table.iter().filter(|u| u.user_id == id).count() as i64)
            }
            UserRegistrationAction::InsertUser(user) => {
                if table.iter().any(|u| {
                    u.user_id == user.user_id || u.username == user.username || u.email == user.email
                }) {
                    UserStoreEvent::UniqueViolation
                } else {
                    table.push(user);
                    UserStoreEvent::Inserted
                }
            }
            UserRegistrationAction::Respond(r) => return r,
        };
        let (s, a) = state.step(event);
        state = s;
        action = a;
    }
}

fn login(table: &[User], data: LoginUserData) -> Result<String, ApiError> {
    let (mut state, mut action) = Login::start(data);
    loop {
        let event = match action {
            LoginAction::FindUserByName(name) => match table.iter().find(|u| u.username == name) {
                Some(u) => LoginEvent::UserFound(u.clone()),
                None => LoginEvent::UserNotFound,
            },
            LoginAction::IssueToken(claims) => LoginEvent::TokenIssued(format!("{}:{}", claims.username, claims.exp)),
            LoginAction::Respond(r) => return r,
        };
        let (s, a) = state.step(event);
        state = s;
        action = a;
    }
}

fn new_user_data() -> RegisterUserData {
    RegisterUserData {
        email: String::from("email@example.com"),
        password: String::from("password1"),
        username: String::from("new_username"),
    }
}

#[test]
fn register_test() {
    let mut table = Vec::new();
    let request = new_user_data();
    let repeat_request = request.clone();

    let success_response = register(&mut table, request);
    let unique_violation_response = register(&mut table, repeat_request);

    assert_eq!(response_status(&success_response), STATUS_OK);
    assert_eq!(response_status(&unique_violation_response), 400);
    assert_eq!(unique_violation_response.unwrap_err().code, "AlreadyExists");
}

#[test]
fn registration_stores_a_hash_not_the_password() {
    let mut table = Vec::new();
    register(&mut table, new_user_data()).unwrap();
    assert_eq!(table.len(), 1);
    assert_eq!(table[0].username, "new_username");
    assert_eq!(table[0].email, "email@example.com");
    assert_ne!(table[0].password, "password1");
    assert!(table[0].password.starts_with("$argon2"));
}

#[test]
fn taken_user_id_is_redrawn() {
    let (state, action) = UserRegistration::begin(new_user_data(), String::from("hash"), [1; 16]);
    assert_eq!(action, UserRegistrationAction::CountUsersWithId([1; 16]));
    let (state, action) = state.advance(UserStoreEvent::Counted(1), [2; 16]);
    assert_eq!(action, UserRegistrationAction::CountUsersWithId([2; 16]));
    let (state, action) = state.advance(UserStoreEvent::Counted(0), [3; 16]);
    match action {
        UserRegistrationAction::InsertUser(u) => {
            assert_eq!(u.user_id, [2; 16]);
            assert_eq!(u.password, "hash");
        }
        other => panic!("unexpected {:?}", other),
    }
    let (_, action) = state.advance(UserStoreEvent::InsertFailed, [3; 16]);
    assert_eq!(action, UserRegistrationAction::Respond(Err(ApiError::internal_error())));
    assert_eq!(ApiError::internal_error().status, 500);
}

#[test]
fn login_test() {
    let mut table = Vec::new();
    register(&mut table, new_user_data()).unwrap();

    let token = login(&table, LoginUserData {
        password: String::from("password1"),
        username: String::from("new_username"),
    })
    .unwrap();
    assert!(token.starts_with("new_username:"));
    let exp: i64 = token["new_username:".len()..].parse().unwrap();
    assert!(exp > 1_600_000_000 + 14400);

    let wrong = login(&table, LoginUserData {
        password: String::from("password1_wrong"),
        username: String::from("new_username"),
    });
    assert_eq!(response_status(&wrong), 401);
    assert_eq!(wrong.unwrap_err().code, "InvalidPassword");

    let missing = login(&table, LoginUserData {
        password: String::from("password1"),
        username: String::from("new_username_no_exist"),
    });
    assert_eq!(response_status(&missing), 400);
    assert_eq!(missing.unwrap_err().code, "UserNotFound");
}

#[test]
fn login_token_expires_after_four_hours() {
    let user = User {
        user_id: [1; 16],
        username: String::from("cam_owner"),
        password: String::from("not a phc string"),
        email: String::from("o@example.com"),
    };
    let (state, _) = Login::start(LoginUserData {
        username: String::from("cam_owner"),
        password: String::from("x"),
    });
    let (_, action) = state.advance(LoginEvent::UserFound(user), 1000);
    assert_eq!(action, LoginAction::Respond(Err(ApiError::hashing_error())));

    let (_, action) = Login::verdict(PasswordCheck::Match, String::from("cam_owner"), 1000);
    assert_eq!(action, LoginAction::IssueToken(AuthToken::new(String::from("cam_owner"), 15400)));
    assert_eq!(token_expiry(i64::MAX - 10), i64::MAX);
    let (_, action) = Login::verdict(PasswordCheck::Failed, String::from("cam_owner"), 1000);
    assert_eq!(action, LoginAction::Respond(Err(ApiError::verification_error())));
}

#[test]
fn account_routes() {
    let r = routes();
    assert_eq!(r, vec![UserRoute::Register, UserRoute::Login]);
    assert_eq!(r[0].path(), "/register");
    assert_eq!(r[1].path(), "/login");
}
