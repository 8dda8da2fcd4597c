use totp::TotpError;
use totp::decode_secret;

#[test]
fn decodes_rfc4226_test_key() {
    let decoded = decode_secret("GEZDGNBVGY3TQOJQGEZDGNBVGY3TQOJQ").unwrap();
    assert_eq!(decoded, b"12345678901234567890".to_vec());
}

#[test]
fn decodes_sixteen_char_secret() {
    let decoded = decode_secret("JBSWY3DPEHPK3PXP").unwrap();
    assert_eq!(
        decoded,
        vec![0x48, 0x65, 0x6c, 0x6c, 0x6f, 0x21, 0xde, 0xad, 0xbe, 0xef]
    );
}

#[test]
fn lower_case_decodes_like_upper_case() {
    assert_eq!(
        decode_secret("jbswy3dpehpk3pxp"),
        decode_secret("JBSWY3DPEHPK3PXP")
    );
}

#[test]
fn mixed_case_decodes_like_upper_case() {
    assert_eq!(
        decode_secret("JbSwY3dPeHpK3pXp"),
        decode_secret("JBSWY3DPEHPK3PXP")
    );
}

#[test]
fn accepted_lengths_give_expected_key_sizes() {
    assert_eq!(decode_secret(&"A".repeat(16)).unwrap().len(), 10);
    assert_eq!(decode_secret(&"A".repeat(26)).unwrap().len(), 16);
    assert_eq!(decode_secret(&"A".repeat(32)).unwrap().len(), 20);
}

#[test]
fn rejects_wrong_lengths_before_decoding() {
    for n in [0, 1, 8, 15, 17, 25, 27, 31, 33, 64] {
        let secret = "A".repeat(n);
        assert_eq!(
            decode_secret(&secret),
            Err(TotpError::InvalidSecretLength),
            "length {} must be rejected",
            n
        );
    }
}

#[test]
fn wrong_length_wins_over_bad_characters() {
    // Eight characters of pure garbage: still a length error, decoding is
    // never attempted.
    assert_eq!(decode_secret("!!!!!!!!"), Err(TotpError::InvalidSecretLength));
}

#[test]
fn rejects_characters_outside_the_alphabet() {
    // '0', '1', '8', '9' and '!' are not in the RFC 4648 base32 alphabet.
    for secret in [
        "0BSWY3DPEHPK3PXP",
        "JBSWY3DPEHPK3PX1",
        "JBSWY8DPEHPK3PXP",
        "JBSWY3DPEHPK3PX9",
        "JBSWY3DP!HPK3PXP",
    ] {
        assert_eq!(
            decode_secret(secret),
            Err(TotpError::Base32DecodeError),
            "{:?} must fail to decode",
            secret
        );
    }
}

#[test]
fn rejects_padding_characters() {
    assert_eq!(
        decode_secret("JBSWY3DPEHPK3PX="),
        Err(TotpError::Base32DecodeError)
    );
    assert_eq!(
        decode_secret(&"=".repeat(16)),
        Err(TotpError::Base32DecodeError)
    );
}

#[test]
fn rejects_non_ascii_secrets() {
    // Sixteen characters, one of them outside ASCII.
    assert_eq!(
        decode_secret("JBSWY3DPEHPK3PX\u{e9}"),
        Err(TotpError::Base32DecodeError)
    );
}
