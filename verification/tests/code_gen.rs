use totp::code::counter_to_bytes;
use totp::code::dynamic_truncate;
use totp::code::format_code;
use totp::decode_secret;
use totp::generate_code;

fn rfc_key() -> Vec<u8> {
    decode_secret("GEZDGNBVGY3TQOJQGEZDGNBVGY3TQOJQ").unwrap()
}

#[test]
fn matches_rfc4226_six_digit_vectors() {
    let key = rfc_key();
    let expected = [
        "755224", "287082", "359152", "969429", "338314", "254676", "287922", "162583", "399871",
        "520489",
    ];
    for (counter, want) in expected.iter().enumerate() {
        assert_eq!(generate_code(&key, counter as u64, 6), *want);
    }
}

#[test]
fn matches_rfc6238_eight_digit_vector() {
    // Epoch second 59 lies in time-step 1.
    assert_eq!(generate_code(&rfc_key(), 1, 8), "94287082");
}

#[test]
fn deterministic_for_fixed_inputs() {
    let key = decode_secret("JBSWY3DPEHPK3PXP").unwrap();
    let first = generate_code(&key, 1, 6);
    let second = generate_code(&key, 1, 6);
    assert_eq!(first, second);
    assert_eq!(first.len(), 6);
    assert!(first.bytes().all(|b| b.is_ascii_digit()));
}

#[test]
fn matches_reference_totp_implementation() {
    let key = decode_secret("JBSWY3DPEHPK3PXP").unwrap();
    for counter in 0..64u64 {
        let reference = totp_lite::totp_custom::<totp_lite::Sha1>(30, 6, &key, counter * 30);
        assert_eq!(generate_code(&key, counter, 6), reference);
    }
}

#[test]
fn pads_small_values_with_zeros() {
    assert_eq!(format_code(42, 6), "000042");
    assert_eq!(format_code(0, 6), "000000");
    assert_eq!(format_code(7, 1), "7");
    assert_eq!(format_code(999999, 6), "999999");
    assert_eq!(format_code(512, 6), "000512");
}

#[test]
fn serialises_counter_big_endian() {
    assert_eq!(counter_to_bytes(0), vec![0u8; 8]);
    assert_eq!(counter_to_bytes(1), vec![0, 0, 0, 0, 0, 0, 0, 1]);
    assert_eq!(
        counter_to_bytes(0x0102030405060708),
        vec![1, 2, 3, 4, 5, 6, 7, 8]
    );
    assert_eq!(counter_to_bytes(u64::MAX), vec![0xff; 8]);
}

#[test]
fn truncation_reads_the_rfc4226_example_digest() {
    // The worked example of RFC 4226 section 5.4: offset 10, value
    // 0x50ef7f19, six digits 872921.
    let digest: Vec<u8> = vec![
        0x1f, 0x86, 0x98, 0x69, 0x0e, 0x02, 0xca, 0x16, 0x61, 0x85, 0x50, 0xef, 0x7f, 0x19, 0xda,
        0x8e, 0x94, 0x5b, 0x55, 0x5a,
    ];
    let truncated = dynamic_truncate(&digest);
    assert_eq!(truncated, 0x50ef7f19);
    assert_eq!(format_code(truncated % 1_000_000, 6), "872921");
}
