use rusty_exercise::auth::{
    find_user, get_email, get_password, if_not_present, registration_hash,
    registration_hash_with_salt, AuthError, EnvVarError, User, UserWithPassword,
};
use rusty_exercise::hash_failure::{B64Failure, HashFailure, SizeBound, ValueFailure};
use rusty_exercise::helpers::{AuthError as StoreError, DatabaseError, DatabaseErrorKind, Report};
use rusty_exercise::repository::{hashed_user_row, hashed_user_row_with_salt};
use rusty_exercise::services::{get_all_users, signup};
use rusty_exercise::types::request::CreateUser;
use rusty_exercise::types::User as StoredUser;
use rusty_exercise::{convert_auth_error, current_user, register_user};

fn record(password: &str) -> Option<UserWithPassword> {
    Some(UserWithPassword {
        user: User { id: 1, email: "a@b.c".to_string() },
        password: password.to_string(),
    })
}

#[test]
fn missing_variables_have_their_own_errors() {
    assert!(matches!(get_email(Err(EnvVarError::NotPresent)), Err(AuthError::NoEmailSet)));
    assert!(matches!(get_password(Err(EnvVarError::NotPresent)), Err(AuthError::NoPasswordSet)));
    assert_eq!(get_email(Ok("a@b.c".to_string())).unwrap(), "a@b.c");
    match get_password(Err(EnvVarError::Other(Report::msg("not unicode")))) {
        Err(AuthError::EnvironmentError(rep)) => assert_eq!(rep.message(), "not unicode"),
        other => panic!("unexpected {:?}", other),
    }
    assert!(matches!(if_not_present::<u8>(Err(EnvVarError::NotPresent), AuthError::NoNameSet), Err(AuthError::NoNameSet)));
    assert_eq!(if_not_present(Ok(5u8), AuthError::NoNameSet).unwrap(), 5);
}

#[test]
fn registered_user_is_found_by_password() {
    let hash = registration_hash("hunter42").unwrap();
    let found = find_user(Ok(record(&hash)), "hunter42").unwrap();
    assert_eq!(found, Some(User { id: 1, email: "a@b.c".to_string() }));
}

#[test]
fn wrong_password_is_incorrect() {
    let hash = registration_hash("hunter42").unwrap();
    assert!(matches!(find_user(Ok(record(&hash)), "hunter43"), Err(AuthError::IncorrectPassword)));
}

#[test]
fn unknown_user_is_none_and_bad_hash_is_an_argon2_error() {
    assert_eq!(find_user(Ok(None), "x").unwrap(), None);
    assert!(matches!(find_user(Ok(record("")), "x"), Err(AuthError::Argon2Error(_))));
    let db = DatabaseError { kind: DatabaseErrorKind::Other, report: Report::msg("down") };
    assert!(matches!(find_user(Err(db), "x"), Err(AuthError::DatabaseError(_))));
}

#[test]
fn registration_hash_depends_on_salt() {
    let a = registration_hash_with_salt("pw", "c2FsdHNhbHRzYWx0c2FsdA").unwrap();
    let b = registration_hash_with_salt("pw", "c2FsdHNhbHRzYWx0c2FsdA").unwrap();
    assert_eq!(a, b);
    assert!(a.starts_with("$argon2id$"));
    assert!(matches!(registration_hash_with_salt("pw", "*"), Err(AuthError::Argon2Error(_))));
}

#[test]
fn auth_errors_are_reported() {
    assert_eq!(convert_auth_error(AuthError::IncorrectPassword), "The password given does not match our records");
    assert_eq!(convert_auth_error(AuthError::NoNameSet), "No name given. You need to set NAME enviroment variable ");
    assert_eq!(
        convert_auth_error(AuthError::NoEmailSet),
        "No email given. You need to set the EMAIL environment variable."
    );
    assert_eq!(
        convert_auth_error(AuthError::NoPasswordSet),
        "No password given. You need to set the PASSWORD environment variable."
    );
    assert_eq!(convert_auth_error(AuthError::EnvironmentError(Report::msg("env"))), "env");
    let db = DatabaseError { kind: DatabaseErrorKind::Other, report: Report::msg("db down") };
    assert_eq!(convert_auth_error(AuthError::DatabaseError(db)), "db down");
    assert_eq!(convert_auth_error(AuthError::Argon2Error(HashFailure::Password)), "invalid password");
}

#[test]
fn hashing_failures_have_the_library_messages() {
    let cases: Vec<(HashFailure, &str)> = vec![
        (HashFailure::Algorithm, "unsupported algorithm"),
        (HashFailure::B64Encoding(B64Failure::InvalidEncoding), "invalid Base64 encoding"),
        (HashFailure::B64Encoding(B64Failure::InvalidLength), "invalid Base64 length"),
        (HashFailure::Crypto, "cryptographic error"),
        (
            HashFailure::OutputSize { provided: SizeBound::Less, expected: 10 },
            "output size too short, expected at least 10 bytes",
        ),
        (
            HashFailure::OutputSize { provided: SizeBound::Equal, expected: 32 },
            "output size unexpected, expected 32 bytes",
        ),
        (
            HashFailure::OutputSize { provided: SizeBound::Greater, expected: 64 },
            "output size too long, expected at most 64 bytes",
        ),
        (HashFailure::ParamNameDuplicated, "duplicate parameter"),
        (HashFailure::ParamNameInvalid, "invalid parameter name"),
        (
            HashFailure::ParamValueInvalid(ValueFailure::InvalidChar('%')),
            "invalid parameter value: contains invalid character: '%'",
        ),
        (HashFailure::ParamsMaxExceeded, "maximum number of parameters reached"),
        (HashFailure::Password, "invalid password"),
        (HashFailure::PhcStringField, "password hash string missing field"),
        (HashFailure::PhcStringTrailingData, "password hash string contains trailing characters"),
        (HashFailure::SaltInvalid(ValueFailure::TooShort), "salt invalid: value to short"),
        (HashFailure::SaltInvalid(ValueFailure::TooLong), "salt invalid: value to long"),
        (HashFailure::SaltInvalid(ValueFailure::Malformed), "salt invalid: value malformed"),
        (HashFailure::SaltInvalid(ValueFailure::InvalidFormat), "salt invalid: value format is invalid"),
        (HashFailure::Version, "invalid algorithm version"),
    ];
    for (failure, text) in cases {
        assert_eq!(failure.message(), text);
        assert_eq!(convert_auth_error(AuthError::Argon2Error(failure)), text);
    }
}

#[test]
fn library_failures_keep_the_library_messages() {
    let from_library = |e: argon2::password_hash::Error| e.to_string();
    match find_user(Ok(record("")), "x") {
        Err(e) => assert_eq!(
            convert_auth_error(e),
            from_library(argon2::password_hash::Error::PhcStringField)
        ),
        Ok(_) => panic!("an empty hash is refused"),
    }
    match registration_hash_with_salt("pw", "*") {
        Err(e) => assert_eq!(convert_auth_error(e), "salt invalid: value to short"),
        Ok(_) => panic!("a one-character salt is refused"),
    }
    match registration_hash_with_salt("pw", "abc*defgh") {
        Err(e) => assert_eq!(convert_auth_error(e), "salt invalid: contains invalid character: '*'"),
        Ok(_) => panic!("a salt with '*' is refused"),
    }
}

#[test]
fn current_user_answers() {
    let u = User { id: 2, email: "x@y.z".to_string() };
    assert_eq!(current_user(Ok(Some(u))).unwrap().id, 2);
    assert_eq!(current_user(Ok(None)).unwrap_err(), "No user found with the given username");
    assert_eq!(
        current_user(Err(AuthError::IncorrectPassword)).unwrap_err(),
        "The password given does not match our records"
    );
}

#[test]
fn duplicate_registration_is_reported() {
    let dup = DatabaseError { kind: DatabaseErrorKind::UniqueViolation, report: Report::msg("duplicate key") };
    assert_eq!(register_user(Err(AuthError::DatabaseError(dup))).unwrap_err(), "A user with that name already exists");
    let other = DatabaseError { kind: DatabaseErrorKind::Other, report: Report::msg("db down") };
    assert_eq!(register_user(Err(AuthError::DatabaseError(other))).unwrap_err(), "db down");
    assert!(register_user(Ok(User { id: 1, email: String::new() })).is_ok());
    assert_eq!(register_user(Err(AuthError::NoEmailSet)).unwrap_err(), "No email given. You need to set the EMAIL environment variable.");
}

fn new_user() -> StoredUser {
    StoredUser::try_from(CreateUser {
        name: "Ada".to_string(),
        email: "ada@example.com".to_string(),
        password: "Analytical-Engine-1".to_string(),
    })
    .unwrap()
}

#[test]
fn signup_form_becomes_a_user_with_a_v4_id() {
    let u = new_user();
    assert_eq!(u.name, "Ada");
    assert_eq!(u.email, "ada@example.com");
    assert_eq!(u.hashed_password, "Analytical-Engine-1");
    assert_eq!(uuid::Uuid::from_u128(u.id).get_version_num(), 4);
    assert_eq!((u.id >> 76) & 0xf, 4);
    assert_eq!((u.id >> 62) & 0x3, 2);
    let v = new_user();
    assert_ne!(u.id, v.id);
    let w = StoredUser::from_request(
        CreateUser { name: "n".into(), email: "e".into(), password: "p".into() },
        99,
    );
    assert_eq!(w.id, 99);
}

#[test]
fn stored_row_holds_a_hash_of_the_password() {
    let u = new_user();
    let row = hashed_user_row(&u).unwrap();
    assert_eq!(row.id, u.id);
    assert_eq!(row.name, u.name);
    assert_eq!(row.email, u.email);
    assert!(row.hashed_password.starts_with("$argon2id$v=19$"));
    let found = find_user(
        Ok(Some(UserWithPassword { user: User { id: 5, email: row.email.clone() }, password: row.hashed_password })),
        "Analytical-Engine-1",
    )
    .unwrap();
    assert_eq!(found.map(|f| f.id), Some(5));
    assert!(matches!(hashed_user_row_with_salt(&u, "?"), Err(StoreError::Argon2Error(_))));
}

#[test]
fn services_answer() {
    assert!(signup(Ok(())).is_ok());
    let db = DatabaseError { kind: DatabaseErrorKind::Other, report: Report::msg("x") };
    assert!(signup(Err(StoreError::DatabaseError(db))).is_ok());
    let err = get_all_users(Err(StoreError::NoEmailSet)).unwrap_err();
    assert_eq!(err.message(), "Failed to fetch users");
    let users = get_all_users(Ok(vec![new_user()])).unwrap();
    assert_eq!(users.len(), 1);
}

#[test]
fn non_ascii_letters_count_as_upper_and_lower_case() {
    assert!(rusty_exercise::types::Password::parse("ÄÖÜäöü123!xx".to_string()).is_ok());
}
