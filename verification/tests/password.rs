use iam::password::{
    argon2_params, encrypt, validate, Argon2ThreadMode, Argon2Variant, Argon2Version, HashType,
    ValidateError, SALT_LENGTH,
};

#[test]
fn params_are_argon2id_v13_37mib_one_pass() {
    let p = argon2_params();
    assert!(p.ad.is_empty());
    assert!(p.secret.is_empty());
    assert_eq!(p.hash_length, 32);
    assert_eq!(p.lanes, 1);
    assert_eq!(p.mem_cost, 37 * 1024);
    assert_eq!(p.time_cost, 1);
    assert_eq!(p.thread_mode, Argon2ThreadMode::Sequential);
    assert_eq!(p.variant, Argon2Variant::Argon2id);
    assert_eq!(p.version, Argon2Version::Version13);
    assert_eq!(SALT_LENGTH, 16);
}

#[test]
fn encrypted_password_validates() {
    let hash = encrypt("correct horse").unwrap();
    assert!(hash.starts_with("$argon2id$v=19$m=37888,t=1,p=1$"));
    let ok = validate(HashType::Argon2, &hash, &"correct horse".to_string()).unwrap();
    assert!(ok);
}

#[test]
fn encrypted_password_refuses_other_password() {
    let hash = encrypt("correct horse").unwrap();
    let ok = validate(HashType::Argon2, &hash, &"battery staple".to_string()).unwrap();
    assert!(!ok);
}

#[test]
fn two_hashes_of_one_password_differ_by_salt() {
    let a = encrypt("pw").unwrap();
    let b = encrypt("pw").unwrap();
    assert_ne!(a, b);
    assert!(validate(HashType::Argon2, &a, &"pw".to_string()).unwrap());
    assert!(validate(HashType::Argon2, &b, &"pw".to_string()).unwrap());
}

#[test]
fn empty_password_hashes() {
    let hash = encrypt("").unwrap();
    assert!(validate(HashType::Argon2, &hash, &String::new()).unwrap());
}

#[test]
fn argon2_refuses_malformed_hash() {
    let res = validate(HashType::Argon2, &"nodollar".to_string(), &"pw".to_string());
    assert!(matches!(res, Err(ValidateError::Argon2Error(_))));
}

#[test]
fn bcrypt_hash_validates() {
    let hash = bcrypt::hash("hunter2", 4).unwrap();
    assert!(validate(HashType::Bcrypt, &hash, &"hunter2".to_string()).unwrap());
    assert!(!validate(HashType::Bcrypt, &hash, &"hunter3".to_string()).unwrap());
}

#[test]
fn bcrypt_refuses_malformed_hash() {
    let res = validate(HashType::Bcrypt, &"nodollar".to_string(), &"pw".to_string());
    assert!(matches!(res, Err(ValidateError::BCryptError(_))));
}

#[test]
fn argon2_hash_is_not_a_bcrypt_hash() {
    let hash = encrypt("pw").unwrap();
    let res = validate(HashType::Bcrypt, &hash, &"pw".to_string());
    assert!(matches!(res, Err(ValidateError::BCryptError(_))));
}
