use argon2::{Argon2, PasswordHash, PasswordVerifier};
use rsfullstack::{hash_password, verify_password, MalformedHash, SecretText};
use uuid::Uuid;

#[test]
fn crypto_hash_password_is_correct() {
    let uuid = Uuid::new_v4();
    let password = SecretText::new(uuid.to_string());

    let password_hash =
        hash_password(SecretText::new(password.expose_secret().into())).unwrap();
    let parsed_hash =
        PasswordHash::new(password_hash.expose_secret()).expect("Failed to parse password hash.");

    assert!(Argon2::default()
        .verify_password(password.expose_secret().as_bytes(), &parsed_hash)
        .is_ok());
}

#[test]
fn hash_is_an_argon2id_phc_string() {
    let h = hash_password(SecretText::new("test".to_string())).unwrap();
    assert!(h.expose_secret().starts_with("$argon2id$v=19$"));
    assert_ne!(h.expose_secret(), "test");
}

#[test]
fn verify_accepts_the_hashed_password_only() {
    let h = hash_password(SecretText::new("secret one".to_string())).unwrap();
    let right = SecretText::new("secret one".to_string());
    let wrong = SecretText::new("secret two".to_string());
    assert_eq!(verify_password(&right, h.expose_secret()), Ok(true));
    assert_eq!(verify_password(&wrong, h.expose_secret()), Ok(false));
}

#[test]
fn two_hashes_of_one_password_differ_and_both_verify() {
    let a = hash_password(SecretText::new("pw".to_string())).unwrap();
    let b = hash_password(SecretText::new("pw".to_string())).unwrap();
    assert_ne!(a.expose_secret(), b.expose_secret());
    let pw = SecretText::new("pw".to_string());
    assert_eq!(verify_password(&pw, a.expose_secret()), Ok(true));
    assert_eq!(verify_password(&pw, b.expose_secret()), Ok(true));
}

#[test]
fn verify_reports_a_malformed_hash() {
    let pw = SecretText::new("pw".to_string());
    assert_eq!(verify_password(&pw, "not a hash"), Err(MalformedHash));
}

#[test]
fn verify_reports_unusable_parameters() {
    let pw = SecretText::new("pw".to_string());
    let h = "$argon2id$v=19$m=1,t=0,p=0$c29tZXNhbHQ$aGFzaGhhc2hoYXNo";
    assert_eq!(verify_password(&pw, h), Err(MalformedHash));
}
