use authentication::authentication::hash_map::HashMapUserFinder;
use authentication::authentication as auth;
use authentication::authentication::postgres::{interpret_query_result, StoreError};
use authentication::authentication::{
    authenticate, check_password, Password, PasswordSalt, Response, UnavailableUserFinder, User,
    UserId, Username,
};

fn make_user(password: &Password) -> User {
    let password_iterations = 4;
    let password_salt = PasswordSalt(vec![0x01, 0x02, 0x03, 0x04]);
    let password_hash = auth::derive(password_iterations, &password_salt, password);
    User {
        user_id: UserId(uuid::Uuid::new_v4().as_u128()),
        password_iterations,
        password_salt,
        password_hash,
    }
}

fn user_id_of(users: &[(Username, User)], username: &str) -> Option<UserId> {
    users
        .iter()
        .find(|(name, _)| name.0 == username)
        .map(|(_, user)| user.user_id)
}

#[test]
fn test_authenticate() {
    let cases = [
        /* username , actual    , attempt   , exists */
        ("steve", "hunter2", "hunter2", true),
        ("jack", "foobar1", "hunter2", true),
        ("mary", "mary", "mary", true),
        ("rob", "rob", "mary", true),
        ("god", "", "jesus", false),
    ];

    let mut users: Vec<(Username, User)> = Vec::new();
    for &(username, actual, _attempt, exists) in cases.iter() {
        if exists {
            let user = make_user(&Password(actual.to_string()));
            users.push((Username::from(username), user));
        }
    }
    let mut user_finder = HashMapUserFinder(users.clone());

    for &(username, actual, attempt, exists) in cases.iter() {
        let response = Response {
            username: Username::from(username),
            password: Password(attempt.to_string()),
        };
        let result = authenticate(&mut user_finder, &response).unwrap();
        if exists && actual == attempt {
            assert_eq!(user_id_of(&users, username), result);
        } else {
            assert_eq!(result, None);
        }
    }
}

#[test]
fn scenario_known_account() {
    let steve = make_user(&Password("hunter2".to_string()));
    let steve_id = steve.user_id;
    let mut finder = HashMapUserFinder(vec![(Username::from("steve"), steve)]);

    let right = Response {
        username: Username::from("steve"),
        password: Password("hunter2".to_string()),
    };
    assert_eq!(authenticate(&mut finder, &right).unwrap(), Some(steve_id));

    let wrong = Response {
        username: Username::from("steve"),
        password: Password("wrong".to_string()),
    };
    assert_eq!(authenticate(&mut finder, &wrong).unwrap(), None);

    let unknown = Response {
        username: Username::from("nouser"),
        password: Password("anything".to_string()),
    };
    assert_eq!(authenticate(&mut finder, &unknown).unwrap(), None);
}

#[test]
fn scenario_backend_error() {
    let mut finder = UnavailableUserFinder("connection refused");
    let response = Response {
        username: Username::from("steve"),
        password: Password("hunter2".to_string()),
    };
    assert_eq!(authenticate(&mut finder, &response), Err("connection refused"));
}

#[test]
fn empty_store_rejects_everyone() {
    let mut finder = HashMapUserFinder::new();
    let response = Response {
        username: Username::from(""),
        password: Password("".to_string()),
    };
    assert_eq!(authenticate(&mut finder, &response).unwrap(), None);
}

#[test]
fn derive_verify_round_trip() {
    let salt = PasswordSalt(vec![0x09, 0x08, 0x07]);
    let password = Password("correct horse battery staple".to_string());
    let password_hash = auth::derive(3, &salt, &password);
    let user = User {
        user_id: UserId(1),
        password_iterations: 3,
        password_salt: salt,
        password_hash,
    };
    assert!(check_password(&user, &password));
}

#[test]
fn wrong_password_is_rejected() {
    let user = make_user(&Password("hunter2".to_string()));
    assert!(!check_password(&user, &Password("hunter3".to_string())));
    assert!(!check_password(&user, &Password("".to_string())));
    assert!(!check_password(&user, &Password("hunter2 ".to_string())));
}

#[test]
fn verify_is_deterministic() {
    let password = Password("hunter2".to_string());
    let user = make_user(&password);
    let first = check_password(&user, &password);
    let second = check_password(&user, &password);
    assert_eq!(first, second);
    assert!(first);

    let salt = PasswordSalt(vec![0x01, 0x02, 0x03, 0x04]);
    let once = auth::derive(4, &salt, &password);
    let again = auth::derive(4, &salt, &password);
    assert_eq!(once, again);
}

#[test]
fn derive_matches_published_test_vector() {
    // RFC 2898 PBKDF2 with HMAC-SHA256: P = "password", S = "salt", c = 1.
    let hash = auth::derive(
        1,
        &PasswordSalt(b"salt".to_vec()),
        &Password("password".to_string()),
    );
    let expected: Vec<u8> = vec![
        0x12, 0x0f, 0xb6, 0xcf, 0xfc, 0xf8, 0xb3, 0x2c, 0x43, 0xe7, 0x22, 0x52, 0x56, 0xc4, 0xf8,
        0x37, 0xa8, 0x65, 0x48, 0xc9, 0x2c, 0xcc, 0x35, 0x48, 0x08, 0x05, 0x98, 0x7c, 0xb7, 0x0b,
        0xe1, 0x7b,
    ];
    assert_eq!(hash.0, expected);
}

#[test]
fn flipping_a_salt_bit_breaks_verification() {
    let password = Password("hunter2".to_string());
    let user = make_user(&password);
    assert!(check_password(&user, &password));
    for byte in 0..user.password_salt.0.len() {
        for bit in 0..8 {
            let mut changed = user.clone();
            changed.password_salt.0[byte] ^= 1u8 << bit;
            assert!(!check_password(&changed, &password));
        }
    }
}

#[test]
fn flipping_a_hash_bit_breaks_verification() {
    let password = Password("hunter2".to_string());
    let user = make_user(&password);
    assert!(check_password(&user, &password));
    for byte in 0..user.password_hash.0.len() {
        for bit in 0..8 {
            let mut changed = user.clone();
            changed.password_hash.0[byte] ^= 1u8 << bit;
            assert!(!check_password(&changed, &password));
        }
    }
}

#[test]
fn flipping_a_password_bit_breaks_verification() {
    let password = Password("hunter2".to_string());
    let user = make_user(&password);
    assert!(check_password(&user, &password));
    // Flip each low bit of each byte; the bytes stay ASCII, so the changed
    // attempt is still a valid string.
    for byte in 0..password.0.len() {
        for bit in 0..7 {
            let mut bytes = password.0.as_bytes().to_vec();
            bytes[byte] ^= 1u8 << bit;
            let changed = Password(String::from_utf8(bytes).unwrap());
            assert!(!check_password(&user, &changed));
        }
    }
}

#[test]
fn password_is_redacted() {
    let password = Password("hunter2".to_string());
    assert_eq!(password.redacted(), "********");
}

#[test]
fn username_from_str() {
    let username = Username::from("steve");
    assert_eq!(username.0, "steve");
}

#[test]
fn query_row_becomes_record_verbatim() {
    let row = Ok(Some((42u128, 4i32, vec![1u8, 2, 3, 4], vec![9u8; 32])));
    match interpret_query_result(row) {
        Ok(Some(user)) => {
            assert_eq!(user.user_id, UserId(42));
            assert_eq!(user.password_iterations, 4);
            assert_eq!(user.password_salt, PasswordSalt(vec![1, 2, 3, 4]));
            assert_eq!(user.password_hash.0, vec![9u8; 32]);
        }
        other => panic!("expected a record, got {:?}", other.map(|_| ()).map_err(|_| ())),
    }
}

#[test]
fn no_query_row_is_a_normal_miss() {
    let row = Ok(None);
    assert!(matches!(interpret_query_result(row), Ok(None)));
}

#[test]
fn out_of_range_query_rows_are_malformed() {
    let zero_iterations = Ok(Some((1u128, 0i32, vec![1u8], vec![9u8; 32])));
    assert!(matches!(
        interpret_query_result(zero_iterations),
        Err(StoreError::MalformedRecord)
    ));
    let negative_iterations = Ok(Some((1u128, -7i32, vec![1u8], vec![9u8; 32])));
    assert!(matches!(
        interpret_query_result(negative_iterations),
        Err(StoreError::MalformedRecord)
    ));
    let empty_hash = Ok(Some((1u128, 4i32, vec![1u8], Vec::new())));
    assert!(matches!(
        interpret_query_result(empty_hash),
        Err(StoreError::MalformedRecord)
    ));
}
