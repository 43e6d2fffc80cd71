use argon2::password_hash::{rand_core::OsRng, PasswordHasher, SaltString};
use argon2::{Argon2, PasswordVerifier};
use task_tracker::register_user::{RegisterUserRequest, RegisterUserResponse, RegisterUserUseCase};
use task_tracker::repository::RepositoryError;
use task_tracker::session::{
    session_for, CreateUserSessionError, CreateUserSessionRequest, CreateUserSessionUseCase,
};
use task_tracker::user::{Avatar, User};
use task_tracker::user_repository::{MockUserRepository, UserRepository};

const SECRET: &str = "test_secret_key_for_sessions";

#[test]
fn test_execute_with_valid_credentials_should_return_token() {
    let mut mock_repo = MockUserRepository::new();
    let email = "test@example.com".to_string();
    let password = "password123".to_string();
    let user = User::new(email.clone(), "testuser".to_string(), password.clone());
    assert!(mock_repo.add_user(user));

    let use_case = CreateUserSessionUseCase::new(mock_repo, SECRET.to_string());
    let request = CreateUserSessionRequest::new(email.clone(), password);
    let result = use_case.execute(request);

    let response = result.ok().expect("Expected a valid token response");
    assert!(!response.token.is_empty());
    assert_eq!(response.token.split('.').count(), 3);
}

#[test]
fn test_execute_with_invalid_password_should_return_error() {
    let mut mock_repo = MockUserRepository::new();
    let email = "test@example.com".to_string();
    let password = "password123".to_string();
    let user = User::new(email.clone(), "testuser".to_string(), password.clone());
    assert!(mock_repo.add_user(user));

    let use_case = CreateUserSessionUseCase::new(mock_repo, SECRET.to_string());
    let request = CreateUserSessionRequest::new(email.clone(), "wrong_password".to_string());
    let result = use_case.execute(request);

    assert!(result.is_err());
    match result.err().unwrap() {
        CreateUserSessionError::InvalidCredentials(msg) => {
            assert_eq!(msg, "Invalid credentials");
        }
    }
}

#[test]
fn test_execute_with_non_existent_user_should_return_error() {
    let mock_repo = MockUserRepository::new();
    let use_case = CreateUserSessionUseCase::new(mock_repo, SECRET.to_string());
    let request = CreateUserSessionRequest::new(
        "nonexistent@example.com".to_string(),
        "password".to_string(),
    );
    let result = use_case.execute(request);

    assert!(result.is_err());
    match result.err().unwrap() {
        CreateUserSessionError::InvalidCredentials(msg) => {
            assert_eq!(msg, "Invalid credentials");
        }
    }
}

#[test]
fn test_execute_with_user_without_id_should_return_error() {
    let mut mock_repo = MockUserRepository::new();
    let email = "test@example.com".to_string();
    let password = "password123".to_string();
    let mut user = User::new(email.clone(), "testuser".to_string(), password.clone());

    let salt = SaltString::generate(OsRng);
    let password_hash = Argon2::default()
        .hash_password(user.password().as_bytes(), &salt)
        .expect("Failed to hash password")
        .to_string();
    user.set_password(password_hash);
    mock_repo.users.push(user);

    let use_case = CreateUserSessionUseCase::new(mock_repo, SECRET.to_string());
    let request = CreateUserSessionRequest::new(email.clone(), password.clone());
    let result = use_case.execute(request);

    assert!(result.is_err());
    match result.err().unwrap() {
        CreateUserSessionError::InvalidCredentials(msg) => {
            assert_eq!(msg, "Invalid credentials");
        }
    }
}

#[test]
fn test_execute_should_hash_password_and_register_user() {
    let mut use_case = RegisterUserUseCase::new(MockUserRepository::new());

    let email = "test@example.com".to_string();
    let username = "testuser".to_string();
    let password = "password123".to_string();
    let file_key = "test_file_key".to_string();
    let mime_type = "image/png".to_string();

    let request = RegisterUserRequest::new(
        email.clone(),
        username.clone(),
        password.clone(),
        file_key.clone(),
        mime_type.clone(),
    );
    assert!(use_case.execute(request).is_ok());

    let repo = &use_case.user_repository;
    assert_eq!(repo.users.len(), 1, "register was not called");
    let saved = &repo.users[0];
    assert_eq!(saved.email(), email);
    assert_eq!(saved.username(), username);
    assert_ne!(saved.password(), password);
    let is_valid = argon2::PasswordHash::new(saved.password())
        .and_then(|hash| Argon2::default().verify_password(password.as_bytes(), &hash))
        .is_ok();
    assert!(is_valid, "password was not hashed correctly");
    assert!(saved.password().starts_with("$argon2id$"));
    assert!(saved.id().is_some());

    assert_eq!(repo.avatars.len(), 1);
    assert_eq!(repo.avatars[0].file_key(), file_key);
    assert_eq!(repo.avatars[0].mime_type(), mime_type);
    assert_eq!(Some(&repo.avatars[0].user_id().to_string()), saved.id());
}

#[test]
fn mock_add_user_hashes_and_assigns_id() {
    let mut repo = MockUserRepository::new();
    assert!(repo.add_user(User::new("a@b.c".to_string(), "a".to_string(), "pw".to_string())));
    let found = repo.find_user_by_email("a@b.c").unwrap();
    assert_ne!(found.password(), "pw");
    assert!(found.id().is_some());
    assert!(repo.find_user_by_email("x@y.z").is_none());
    assert_eq!(repo.avatars[0].file_key(), "file_key");
    assert_eq!(repo.avatars[0].mime_type(), "mime_type");
}

#[test]
fn mock_add_user_keeps_given_id() {
    let mut repo = MockUserRepository::new();
    let mut user = User::new("a@b.c".to_string(), "a".to_string(), "pw".to_string());
    user.set_id("fixed".to_string());
    assert!(repo.add_user(user));
    assert_eq!(repo.users[0].id().map(|s| s.as_str()), Some("fixed"));
    assert_eq!(repo.avatars[0].user_id(), "fixed");
}

#[test]
fn find_user_by_email_returns_first_match() {
    let mut repo = MockUserRepository::new();
    let mut first = User::new("same@x.y".to_string(), "first".to_string(), "p".to_string());
    first.set_id("1".to_string());
    let mut second = User::new("same@x.y".to_string(), "second".to_string(), "p".to_string());
    second.set_id("2".to_string());
    repo.users.push(first);
    repo.users.push(second);
    assert_eq!(repo.find_user_by_email("same@x.y").unwrap().username(), "first");
}

#[test]
fn user_profile_joins_user_and_avatar() {
    let mut repo = MockUserRepository::new();
    let mut user = User::new("a@b.c".to_string(), "alice".to_string(), "h".to_string());
    user.set_id("u1".to_string());
    assert!(repo.register(user, "key-1".to_string(), "image/png".to_string()).is_ok());
    let mut profile = repo.get_user_profile("u1".to_string()).unwrap().unwrap();
    assert_eq!(profile.user.username(), "alice");
    assert_eq!(profile.avatar_url, "key-1");
    profile.set_avatar_url("http://files/key-1".to_string());
    assert_eq!(profile.avatar_url, "http://files/key-1");
    assert!(repo.get_user_profile("u2".to_string()).unwrap().is_none());
    let by_email = repo.get_user_by_email("a@b.c".to_string()).unwrap().unwrap();
    assert_eq!(by_email.id().map(|s| s.as_str()), Some("u1"));
}

#[test]
fn user_and_avatar_accessors() {
    let mut u = User::new("e".to_string(), "n".to_string(), "p".to_string());
    assert!(u.id().is_none());
    u.set_email("e2".to_string());
    u.set_username("n2".to_string());
    u.set_password("secret2".to_string());
    assert_eq!((u.email(), u.username(), u.password()), ("e2", "n2", "secret2"));
    let copy = u.duplicate();
    assert_eq!(copy.email(), "e2");

    let mut a = Avatar::new("i".to_string(), "u".to_string(), "k".to_string(), "m".to_string());
    assert_eq!((a.id(), a.user_id(), a.file_key(), a.mime_type()), ("i", "u", "k", "m"));
    a.set_id("i2".to_string());
    a.set_user_id("u2".to_string());
    a.set_file_key("k2".to_string());
    a.set_mime_type("m2".to_string());
    assert_eq!((a.id(), a.user_id(), a.file_key(), a.mime_type()), ("i2", "u2", "k2", "m2"));
    assert_eq!(RegisterUserResponse::new("url".to_string()).url, "url");
}

#[test]
fn session_for_decides_from_the_lookup() {
    let mut repo = MockUserRepository::new();
    assert!(repo.add_user(User::new("a@b.c".to_string(), "a".to_string(), "pw".to_string())));
    let found = || Ok(Some(repo.users[0].duplicate()));
    let ok = session_for(found(), "pw", 1_000, SECRET).ok().unwrap();
    assert_eq!(ok.token.split('.').count(), 3);
    let again = session_for(found(), "pw", 1_000, SECRET).ok().unwrap();
    assert_eq!(ok.token, again.token);
    let later = session_for(found(), "pw", 2_000, SECRET).ok().unwrap();
    assert_ne!(ok.token, later.token);
    for r in [
        session_for(found(), "wrong", 1_000, SECRET),
        session_for(Ok(None), "pw", 1_000, SECRET),
        session_for(Err(RepositoryError::Persistence), "pw", 1_000, SECRET),
    ] {
        match r {
            Err(CreateUserSessionError::InvalidCredentials(m)) => assert_eq!(m, "Invalid credentials"),
            Ok(_) => panic!("expected a refusal"),
        }
    }
}
