use apub_engine::errors::{ApiError, SignatureError};
use apub_engine::sign::{sign_bytes, verify_signature, Request};
use apub_engine::text::{has_slur, is_valid_post_title, remove_slurs};

fn key() -> Vec<u8> {
    vec![3, 1, 4, 1, 5]
}

#[test]
fn signature_roundtrip_succeeds() {
    let body = vec![10u8, 20, 30, 40, 50];
    let sig = sign_bytes(&key(), &body);
    let req = Request { body, signature: Some(sig) };
    assert!(verify_signature(&req, &key()).is_ok());
}

#[test]
fn signature_missing_is_reported() {
    let req = Request { body: vec![1, 2, 3], signature: None };
    assert_eq!(verify_signature(&req, &key()), Err(SignatureError::Missing));
}

#[test]
fn flipping_any_body_byte_breaks_verification() {
    let body = vec![10u8, 20, 30, 40, 50];
    let sig = sign_bytes(&key(), &body);
    for i in 0..body.len() {
        let mut tampered = body.clone();
        tampered[i] ^= 0x01;
        let req = Request { body: tampered, signature: Some(sig.clone()) };
        assert_eq!(verify_signature(&req, &key()), Err(SignatureError::Mismatch));
    }
}

#[test]
fn flipping_any_signature_byte_breaks_verification() {
    let body = vec![10u8, 20, 30, 40, 50];
    let sig = sign_bytes(&key(), &body);
    for i in 0..sig.len() {
        let mut tampered = sig.clone();
        tampered[i] ^= 0x80;
        let req = Request { body: body.clone(), signature: Some(tampered) };
        assert_eq!(verify_signature(&req, &key()), Err(SignatureError::Mismatch));
    }
}

#[test]
fn unmodified_resend_still_verifies() {
    let body = vec![9u8, 8, 7];
    let sig = sign_bytes(&key(), &body);
    let req1 = Request { body: body.clone(), signature: Some(sig.clone()) };
    let req2 = Request { body, signature: Some(sig) };
    assert!(verify_signature(&req1, &key()).is_ok());
    assert!(verify_signature(&req2, &key()).is_ok());
}

#[test]
fn post_title_needs_three_solid_characters() {
    assert!(is_valid_post_title(&String::from("abc")));
    assert!(is_valid_post_title(&String::from("  a decent title  ")));
    assert!(!is_valid_post_title(&String::from("a b c d")));
    assert!(!is_valid_post_title(&String::from("   ")));
    assert!(!is_valid_post_title(&String::from("ab")));
    assert!(!is_valid_post_title(&String::from("")));
}

#[test]
fn slur_scan_finds_listed_words() {
    let slurs = vec![String::from("darn"), String::from("heck")];
    assert!(has_slur(&String::from("oh darn it"), &slurs));
    assert!(has_slur(&String::from("heck"), &slurs));
    assert!(!has_slur(&String::from("dank hero"), &slurs));
    assert!(!has_slur(&String::from(""), &slurs));
}

#[test]
fn slur_masking_replaces_each_occurrence_character() {
    let slurs = vec![String::from("darn")];
    let out = remove_slurs(&String::from("oh darn it, darn!"), &slurs);
    assert_eq!(out, String::from("oh **** it, ****!"));
    let untouched = remove_slurs(&String::from("all clear"), &slurs);
    assert_eq!(untouched, String::from("all clear"));
}

#[test]
fn api_error_variants_compare() {
    assert_ne!(ApiError::Slurs, ApiError::NotFound);
}
