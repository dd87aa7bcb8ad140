use argon2::password_hash::PasswordHash;
use argon2::password_hash::SaltString;
use argon2::Algorithm;
use argon2::Argon2;
use argon2::Params;
use argon2::PasswordHasher;
use argon2::PasswordVerifier;
use argon2::Version;
use session_auth::password::begins_with_head;
use session_auth::password::hash_password;
use session_auth::password::verify_password;

#[test]
fn hash_then_verify_succeeds() {
    let hash = hash_password("correct horse battery staple").unwrap();
    assert!(verify_password(&hash, "correct horse battery staple"));
}

#[test]
fn verify_rejects_another_password() {
    let hash = hash_password("pw").unwrap();
    assert!(!verify_password(&hash, "pw "));
    assert!(!verify_password(&hash, "Pw"));
    assert!(!verify_password(&hash, ""));
}

#[test]
fn hashing_twice_gives_two_hashes_that_both_verify() {
    let first = hash_password("pw").unwrap();
    let second = hash_password("pw").unwrap();
    assert_ne!(first, second);
    assert!(verify_password(&first, "pw"));
    assert!(verify_password(&second, "pw"));
}

#[test]
fn hash_is_a_self_describing_argon2id_string() {
    let hash = hash_password("pw").unwrap();
    assert_ne!(hash, "pw");
    assert!(hash.starts_with("$argon2id$v=19$m=19456,t=2,p=1$"));
    let fields: Vec<&str> = hash.split('$').collect();
    assert_eq!(fields.len(), 6);
    assert_eq!(fields[4].len(), 22);
    assert_eq!(fields[5].len(), 43);
    assert_eq!(hash.len(), 97);
    assert!(fields[4].chars().all(|c| c.is_ascii_alphanumeric() || c == '+' || c == '/'));
}

#[test]
fn empty_password_hashes_and_verifies() {
    let hash = hash_password("").unwrap();
    assert!(verify_password(&hash, ""));
    assert!(!verify_password(&hash, "x"));
}

#[test]
fn verify_rejects_what_is_no_hash_string() {
    assert!(!verify_password("", "pw"));
    assert!(!verify_password("pw", "pw"));
    assert!(!verify_password("$argon2id$v=19$m=19456,t=2,p=1$", "pw"));
}

#[test]
fn verify_rejects_a_hash_with_another_salt() {
    let hash = hash_password("pw").unwrap();
    let mut fields: Vec<String> = hash.split('$').map(|field| field.to_string()).collect();
    fields[4] = "AAAAAAAAAAAAAAAAAAAAAA".to_string();
    let forged = fields.join("$");
    assert!(!verify_password(&forged, "pw"));
}

#[test]
fn head_is_that_of_the_default_parameters() {
    assert!(begins_with_head("$argon2id$v=19$m=19456,t=2,p=1$"));
    assert!(begins_with_head("$argon2id$v=19$m=19456,t=2,p=1$c29tZXNhbHQ$rest"));
    assert!(begins_with_head(&hash_password("pw").unwrap()));
    assert!(!begins_with_head(""));
    assert!(!begins_with_head("$argon2id$v=19$m=19456,t=2,p=1"));
    assert!(!begins_with_head("$argon2id$v=19$m=19456,t=2,p=2$"));
    assert!(!begins_with_head("$argon2i$v=19$m=19456,t=2,p=1$c29tZXNhbHQ"));
    assert!(!begins_with_head(" $argon2id$v=19$m=19456,t=2,p=1$"));
    assert!(!begins_with_head("\u{e9}argon2id$v=19$m=19456,t=2,p=1$xx"));
}

#[test]
fn verify_refuses_a_hash_that_asks_for_other_costs() {
    let salt = SaltString::from_b64("c29tZXNhbHQ").unwrap();
    let cheap = Argon2::new(Algorithm::Argon2id, Version::V0x13, Params::new(8, 1, 1, None).unwrap());
    let hash = cheap.hash_password("pw".as_bytes(), &salt).unwrap().to_string();
    assert!(hash.starts_with("$argon2id$v=19$m=8,t=1,p=1$"));
    let parsed = PasswordHash::new(&hash).unwrap();
    assert!(Argon2::default().verify_password("pw".as_bytes(), &parsed).is_ok());
    assert!(!verify_password(&hash, "pw"));
}

#[test]
fn verify_refuses_a_hash_with_an_oversized_parallelism() {
    let digest = "AAAAAAAAAAAAAAAAAAAAAAAAAAAAAAAAAAAAAAAAAAA";
    for lanes in ["536870912", "4294967295", "16777216"] {
        let hostile = format!("$argon2id$v=19$m=19456,t=2,p={}$c29tZXNhbHQ${}", lanes, digest);
        assert!(!verify_password(&hostile, "pw"));
    }
    let heavy = format!("$argon2id$v=19$m=4294967295,t=4294967295,p=1$c29tZXNhbHQ${}", digest);
    assert!(!verify_password(&heavy, "pw"));
}

#[test]
fn verify_survives_whatever_follows_the_head() {
    let head = "$argon2id$v=19$m=19456,t=2,p=1$";
    let long = "A".repeat(200);
    for rest in [
        "",
        "$",
        "$$",
        "c29tZXNhbHQ",
        "c29tZXNhbHQ$",
        "c29tZXNhbHQ$AAAA",
        "c29tZXNhbHQ$AAAAAAAAAAAAAAAAAAAAAAAAAAAAAAAAAAAAAAAAAAA$more",
        "abc$AAAAAAAAAAAAAAAAAAAAAAAAAAAAAAAAAAAAAAAAAAA",
        "not base64 !$AAAAAAAAAAAAAAAAAAAAAAAAAAAAAAAAAAAAAAAAAAA",
        "AAAAA$AAAAAAAAAAAAAAAAAAAAAAAAAAAAAAAAAAAAAAAAAAA",
        "c29tZXNhbHQ$A",
        "p=9,m=1$c29tZXNhbHQ$AAAAAAAAAAAAAAAAAAAAAAAAAAAAAAAAAAAAAAAAAAA",
        "\u{e9}\u{e9}\u{e9}\u{e9}$AAAAAAAAAAAAAAAAAAAAAAAAAAAAAAAAAAAAAAAAAAA",
    ] {
        assert!(!verify_password(&format!("{}{}", head, rest), "pw"));
    }
    assert!(!verify_password(&format!("{}{}${}", head, long, long), "pw"));
    assert!(!verify_password(&format!("{}c29tZXNhbHQ${}", head, long), "pw"));
}

#[test]
fn verify_accepts_a_default_hash_under_a_short_salt() {
    let salt = SaltString::from_b64("c29tZXNhbHQ").unwrap();
    let hash = Argon2::default().hash_password("pw".as_bytes(), &salt).unwrap().to_string();
    assert!(verify_password(&hash, "pw"));
    assert!(!verify_password(&hash, "other"));
}
