use rsmycqu::encrypt::{encrypt_password, encrypt_student_id, pad16, pad8};
use rsmycqu::errors::{ApiError, SSOError};

#[test]
fn test_login_page_encrypt() {
    let encrypted_password = encrypt_password("IGEOE4OMIBo=", "abc123456");

    assert_eq!(encrypted_password.unwrap(), "9p5YTOsEgya0j7w0dbg/CA==");
}

#[test]
fn encrypt_is_deterministic() {
    let a = encrypt_password("IGEOE4OMIBo=", "abc123456").unwrap();
    let b = encrypt_password("IGEOE4OMIBo=", "abc123456").unwrap();
    assert_eq!(a, b);
}

#[test]
fn encrypt_rejects_bad_salt() {
    let r = encrypt_password("not base64 at all!!", "abc123456");
    assert!(matches!(
        r,
        Err(ApiError::Inner { source: SSOError::PasswordEncryptError })
    ));
}

#[test]
fn encrypt_rejects_oversized_salt() {
    // Twelve decoded bytes cannot fit the eight-byte key block.
    let r = encrypt_password("AAAAAAAAAAAAAAAA", "abc123456");
    assert!(matches!(
        r,
        Err(ApiError::Inner { source: SSOError::PasswordEncryptError })
    ));
}

#[test]
fn pad8_appends_the_distance_to_the_boundary() {
    assert_eq!(pad8(b"abc"), vec![97, 98, 99, 5, 5, 5, 5, 5]);
    assert_eq!(
        pad8(b"12345678"),
        vec![49, 50, 51, 52, 53, 54, 55, 56, 8, 8, 8, 8, 8, 8, 8, 8]
    );
    assert_eq!(pad8(b""), vec![8, 8, 8, 8, 8, 8, 8, 8]);
}

#[test]
fn pad16_appends_the_distance_to_the_boundary() {
    let padded = pad16(b"abc");
    assert_eq!(padded.len(), 16);
    assert_eq!(&padded[..3], b"abc");
    assert!(padded[3..].iter().all(|&b| b == 13));
}

#[test]
fn encrypt_student_id_yields_upper_hex_blocks() {
    let a = encrypt_student_id("20200001");
    // One padded block becomes sixteen cipher bytes: thirty-two hex digits.
    assert_eq!(a.len(), 32);
    assert!(a.chars().all(|c| c.is_ascii_hexdigit() && !c.is_ascii_lowercase()));
    // Identical inputs give identical output; a different id differs.
    assert_eq!(a, encrypt_student_id("20200001"));
    assert_ne!(a, encrypt_student_id("20200002"));
    // The cipher really ran: this is the hex of the padded plaintext,
    // which an identity cipher would have produced.
    assert_ne!(a, "32303230303030310808080808080808");
}
