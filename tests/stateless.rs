use base64::engine::general_purpose;
use base64::Engine;
use hmac::{Hmac, Mac};
use sha2::Sha256;
use captcha_rs::stateless::{sign_at, verify_at};
use captcha_rs::{sign, verify, CaptchaBuilder};

#[test]
fn signed_solution_verifies_case_insensitively() {
    let token = sign("ABCDE", 300, "secret");
    assert_eq!(verify(&token, "abcde", "secret"), Some(true));
    assert_eq!(verify(&token, "ABCDE", "secret"), Some(true));
    assert_eq!(verify(&token, "aBcDe", "secret"), Some(true));
}

#[test]
fn other_secret_is_undecodable() {
    let token = sign("ABCDE", 300, "secret");
    assert_eq!(verify(&token, "abcde", "other-secret"), None);
    assert_eq!(verify(&token, "anything", "wrong"), None);
}

#[test]
fn wrong_guess_is_refused() {
    let token = sign("ABCDE", 300, "secret");
    assert_eq!(verify(&token, "wrong-guess", "secret"), Some(false));
    assert_eq!(verify(&token, "abcd", "secret"), Some(false));
    assert_eq!(verify(&token, "abcdef", "secret"), Some(false));
}

#[test]
fn expiry_is_checked_against_the_given_time() {
    let token = sign_at("Hello", 1_000, "k");
    assert_eq!(verify_at(&token, "hello", "k", 999), Some(true));
    assert_eq!(verify_at(&token, "hello", "k", 1_000), Some(true));
    assert_eq!(verify_at(&token, "hello", "k", 1_001), Some(false));
    assert_eq!(verify_at(&token, "nope", "k", 1_001), Some(false));
    assert_eq!(verify_at(&token, "hello", "j", 10), None);
}

#[test]
fn token_that_already_expired_is_refused() {
    let token = sign_at("abc", 5, "k");
    assert_eq!(verify(&token, "abc", "k"), Some(false));
}

#[test]
fn tampered_or_garbage_tokens_are_undecodable() {
    let token = sign_at("abc", 5_000_000_000, "k");
    let mut chars: Vec<char> = token.chars().collect();
    chars[3] = if chars[3] == 'A' { 'B' } else { 'A' };
    let tampered: String = chars.into_iter().collect();
    assert_eq!(verify_at(&tampered, "abc", "k", 0), None);
    assert_eq!(verify_at("", "abc", "k", 0), None);
    assert_eq!(verify_at("not base64!", "abc", "k", 0), None);
    assert_eq!(verify_at("AAAA", "abc", "k", 0), None);
    assert_eq!(verify_at(&token[..token.len() - 2], "abc", "k", 0), None);
}

#[test]
fn token_is_url_safe_text() {
    let token = sign_at("Some Solution", 42, "s3cr3t");
    assert!(token.chars().all(|c| c.is_ascii_alphanumeric() || c == '-' || c == '_'));
    assert_eq!(token, sign_at("some solution", 42, "s3cr3t"));
    assert_ne!(token, sign_at("some solution", 43, "s3cr3t"));
}

#[test]
fn non_ascii_solutions_compare_without_case() {
    let token = sign_at("Ärger", 10, "k");
    assert_eq!(verify_at(&token, "Ärger", "k", 0), Some(true));
    assert_eq!(verify_at(&token, "äRGER", "k", 0), Some(true));
    assert_eq!(verify_at(&token, "ärger", "k", 0), Some(true));
    assert_eq!(verify_at(&token, "arger", "k", 0), Some(false));
}

#[test]
fn captcha_as_tuple_pairs_image_and_token() {
    let captcha = CaptchaBuilder::new().length(5).width(200).height(70).complexity(5).build();
    let (image, token) = captcha.as_tuple("my-super-secret-key", 300).unwrap();
    assert!(image.starts_with("data:image/jpeg;base64,"));
    assert_eq!(verify(&token, &captcha.text.to_lowercase(), "my-super-secret-key"), Some(true));
    assert_eq!(verify(&token, "wrong123", "my-super-secret-key"), Some(false));
    assert_eq!(verify(&token, &captcha.text, "wrong-secret"), None);
}

#[test]
fn token_bytes_are_expiry_length_solution_and_tag() {
    let token = sign_at("AbC", 0x0102030405060708, "key");
    let bytes = general_purpose::URL_SAFE_NO_PAD.decode(&token).unwrap();
    assert_eq!(&bytes[0..8], &[1, 2, 3, 4, 5, 6, 7, 8]);
    assert_eq!(&bytes[8..16], &[0, 0, 0, 0, 0, 0, 0, 3]);
    assert_eq!(&bytes[16..19], b"abc");
    let mut mac = Hmac::<Sha256>::new_from_slice(b"key").unwrap();
    mac.update(&bytes[0..19]);
    assert_eq!(&bytes[19..], mac.finalize().into_bytes().as_slice());
}

#[test]
fn unicode_solution_is_stored_lower_cased() {
    let token = sign_at("ÄÖ", 7, "key");
    let bytes = general_purpose::URL_SAFE_NO_PAD.decode(&token).unwrap();
    assert_eq!(&bytes[8..16], &[0, 0, 0, 0, 0, 0, 0, 4]);
    assert_eq!(&bytes[16..20], "äö".as_bytes());
}
