use checksum_compare::compare::checksums_match;
use checksum_compare::engine::{compare_checksum, compute};
use checksum_compare::fletcher::{calculate_fletcher, fletcher_checksum};
use checksum_compare::hashes::{calculate_md5, calculate_sha1, calculate_sha256};
use checksum_compare::hex::hex_encode;
use checksum_compare::selector::{parse_selector, selector_from_text, Algorithm};

#[test]
fn fletcher_empty_input() {
    assert_eq!(fletcher_checksum(&[]), 0);
    assert_eq!(calculate_fletcher(&[]), "00000000");
}

#[test]
fn fletcher_single_byte() {
    assert_eq!(fletcher_checksum(&[1]), 0x0001_0001);
    assert_eq!(calculate_fletcher(&[1]), "00010001");
}

#[test]
fn fletcher_two_bytes() {
    assert_eq!(fletcher_checksum(&[1, 2]), 0x0004_0003);
    assert_eq!(calculate_fletcher(&[1, 2]), "00040003");
}

#[test]
fn fletcher_is_deterministic() {
    let data: Vec<u8> = (0u32..1000).map(|i| (i * 7 + 3) as u8).collect();
    let first = calculate_fletcher(&data);
    let second = calculate_fletcher(&data);
    assert_eq!(first, second);
    assert_eq!(first.len(), 8);
    assert!(first.chars().all(|c| c.is_ascii_hexdigit() && !c.is_ascii_uppercase()));
}

#[test]
fn fletcher_sum1_wraps_at_65535() {
    // 256 bytes of 0xff: sum1 = 255 * 256 = 65280; sum2 = 255 * (1 + ... + 256) = 128 * 65535.
    let data = vec![0xffu8; 256];
    assert_eq!(calculate_fletcher(&data), "0000ff00");
    // One more 0xff brings sum1 to exactly 65535, which wraps to 0.
    let data = vec![0xffu8; 257];
    assert_eq!(fletcher_checksum(&data), 0);
    assert_eq!(calculate_fletcher(&data), "00000000");
    let mut data = vec![0xffu8; 257];
    data.push(1);
    assert_eq!(calculate_fletcher(&data), "00010001");
}

#[test]
fn fletcher_high_bytes_are_zero_padded() {
    // sum1 = 0xff, sum2 = 0xff.
    assert_eq!(calculate_fletcher(&[0xff]), "00ff00ff");
    // sum1 = 1 + 0x0f = 16, sum2 = 1 + 16 = 17.
    assert_eq!(calculate_fletcher(&[1, 0x0f]), "00110010");
}

#[test]
fn hex_encode_renders_two_lowercase_digits_per_byte() {
    assert_eq!(hex_encode(&[]), "");
    assert_eq!(hex_encode(&[0x00, 0x0a, 0xbc, 0xff]), "000abcff");
}

#[test]
fn md5_of_abc() {
    assert_eq!(calculate_md5(b"abc"), "900150983cd24fb0d6963f7d28e17f72");
    assert_eq!(calculate_md5(b""), "d41d8cd98f00b204e9800998ecf8427e");
}

#[test]
fn sha1_of_abc() {
    assert_eq!(calculate_sha1(b"abc"), "a9993e364706816aba3e25717850c26c9cd0d89d");
}

#[test]
fn sha256_of_abc() {
    assert_eq!(
        calculate_sha256(b"abc"),
        "ba7816bf8f01cfea414140de5dae2223b00361a396177a9cb410ff61f20015ad"
    );
}

#[test]
fn compute_dispatches_on_algorithm() {
    assert_eq!(compute(Algorithm::Md5, b"abc"), calculate_md5(b"abc"));
    assert_eq!(compute(Algorithm::Sha1, b"abc"), calculate_sha1(b"abc"));
    assert_eq!(compute(Algorithm::Sha256, b"abc"), calculate_sha256(b"abc"));
    assert_eq!(compute(Algorithm::Fletcher, &[1, 2]), "00040003");
}

#[test]
fn selector_numbers() {
    assert_eq!(Algorithm::from_number(1), Some(Algorithm::Md5));
    assert_eq!(Algorithm::from_number(2), Some(Algorithm::Sha1));
    assert_eq!(Algorithm::from_number(3), Some(Algorithm::Sha256));
    assert_eq!(Algorithm::from_number(4), Some(Algorithm::Fletcher));
    assert_eq!(Algorithm::from_number(0), None);
    assert_eq!(Algorithm::from_number(5), None);
}

#[test]
fn selector_text_forms() {
    assert_eq!(selector_from_text("1"), Some(Algorithm::Md5));
    assert_eq!(selector_from_text("3"), Some(Algorithm::Sha256));
    assert_eq!(selector_from_text("+4"), Some(Algorithm::Fletcher));
    assert_eq!(selector_from_text("0002"), Some(Algorithm::Sha1));
    assert_eq!(selector_from_text(" 4"), None);
    assert_eq!(selector_from_text("-1"), None);
    assert_eq!(selector_from_text("+"), None);
    assert_eq!(selector_from_text("14"), None);
    assert_eq!(selector_from_text("99999999999999999999"), None);
}

#[test]
fn invalid_selectors() {
    assert_eq!(parse_selector("0"), None);
    assert_eq!(parse_selector("5"), None);
    assert_eq!(parse_selector("md5"), None);
    assert_eq!(parse_selector(""), None);
    assert_eq!(parse_selector("\n"), None);
    assert_eq!(parse_selector("4x"), None);
}

#[test]
fn selector_line_is_trimmed() {
    assert_eq!(parse_selector("4\n"), Some(Algorithm::Fletcher));
    assert_eq!(parse_selector("  2 \r\n"), Some(Algorithm::Sha1));
}

#[test]
fn comparison_ignores_ascii_case() {
    assert!(checksums_match("00040003", "00040003"));
    assert!(checksums_match("DEADBEEF", "deadbeef"));
    assert!(checksums_match("DeAdBeEf", "deadbeef"));
    assert!(!checksums_match("deadbeee", "deadbeef"));
    assert!(!checksums_match("DEADBEE0", "deadbeef"));
    assert!(!checksums_match("deadbee", "deadbeef"));
    assert!(!checksums_match("", "deadbeef"));
    assert!(checksums_match("", ""));
}

#[test]
fn end_to_end_fletcher_match() {
    let data: Vec<u8> = vec![1, 2];
    let alg = parse_selector("4\n").unwrap();
    let report = compare_checksum("00040003\n", alg, &data);
    assert_eq!(report.expected, "00040003");
    assert_eq!(report.computed, "00040003");
    assert!(report.matched);
}

#[test]
fn end_to_end_fletcher_mismatch() {
    let data: Vec<u8> = vec![1, 2];
    let alg = parse_selector("4").unwrap();
    let report = compare_checksum("deadbeef", alg, &data);
    assert_eq!(report.computed, "00040003");
    assert!(!report.matched);
}

#[test]
fn end_to_end_digest_in_upper_case() {
    let report = compare_checksum(
        "  900150983CD24FB0D6963F7D28E17F72 ",
        Algorithm::Md5,
        b"abc",
    );
    assert_eq!(report.expected, "900150983CD24FB0D6963F7D28E17F72");
    assert!(report.matched);
}
