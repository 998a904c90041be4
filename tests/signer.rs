use ccgt::signer::sign;

#[test]
fn sign_matches_rfc4231_case_two() {
    assert_eq!(
        sign(b"Jefe", b"what do ya want for nothing?"),
        "5bdcc146bf60754e6a042426089575c75a003f089d2739839dec58b964ec3843"
    );
}

#[test]
fn sign_matches_rfc4231_case_one() {
    assert_eq!(
        sign(&[0x0b; 20], b"Hi There"),
        "b0344c61d8db38535ca8afceaf0bf12b881dc200c9833da726e9376c2e32cff7"
    );
}

#[test]
fn sign_accepts_key_longer_than_block() {
    assert_eq!(
        sign(&[0xaa; 131], b"Test Using Larger Than Block-Size Key - Hash Key First"),
        "60e431591ee0b67f0d8a26aacbf5b77f8e0bc6213728c5140546040f0ee37f54"
    );
}

#[test]
fn sign_is_deterministic_and_sensitive_to_the_message() {
    let a = sign(b"secret", b"payload");
    let b = sign(b"secret", b"payload");
    let c = sign(b"secret", b"paylOad");
    assert_eq!(a, b);
    assert_ne!(a, c);
    assert_eq!(a.len(), 64);
    assert!(a.chars().all(|ch| ch.is_ascii_digit() || ('a'..='f').contains(&ch)));
}
