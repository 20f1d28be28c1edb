use artifact_integrity::{digest_hex, hex_matches, verify_file_sha512, verify_file_sha512_internal};

const HELLO_SHA512: &str = "9b71d224bd62f3785d96d46ad3ea3d73319bfbc2890caadae2dff72519673ca7\
                            2323c3d99ba5c11d7c7acc6e14b8c5da0c4663475c2e5c3adef46f73bcdec043";

const EMPTY_SHA512: &str = "cf83e1357eefb8bdf1542850d66d8007d620e4050b5715dc83f4a921d36ce9ce\
                            47d0d13c5d85f2b0ff8318d2877eec2f63b931bd47417a81a538327af927da3e";

fn sample_buffers() -> Vec<Vec<u8>> {
    vec![
        Vec::new(),
        vec![0],
        vec![0xff; 3],
        b"hello".to_vec(),
        b"release-v1.iso".to_vec(),
        (0..=255u8).collect(),
        vec![0x5a; 10_000],
    ]
}

#[test]
fn hex_matches_the_lowercase_spelling_only() {
    assert!(hex_matches(&[], ""));
    assert!(hex_matches(&[0x00], "00"));
    assert!(hex_matches(&[0x01, 0xab], "01ab"));
    assert!(hex_matches(&[0xff, 0x10, 0x9b], "ff109b"));
    assert!(!hex_matches(&[0x01, 0xab], "01AB"));
    assert!(!hex_matches(&[0x01, 0xab], "01aB"));
    assert!(!hex_matches(&[0x01, 0xab], "1ab"));
    assert!(!hex_matches(&[0x01, 0xab], "01ab "));
    assert!(!hex_matches(&[0x01, 0xab], "01ab00"));
    assert!(!hex_matches(&[0x01, 0xab], ""));
    assert!(!hex_matches(&[], "00"));
    assert!(!hex_matches(&[0x00], "0"));
}

#[test]
fn hex_spells_the_high_half_first() {
    assert!(hex_matches(&[0x1f], "1f"));
    assert!(!hex_matches(&[0x1f], "f1"));
    assert!(hex_matches(&[0xa0, 0x0a], "a00a"));
    assert!(!hex_matches(&[0xa0, 0x0a], "0aa0"));
}

#[test]
fn hex_spells_every_byte_value() {
    let digits: Vec<char> = "0123456789abcdef".chars().collect();
    for byte in 0..=255u8 {
        let expected: String = [digits[(byte / 16) as usize], digits[(byte % 16) as usize]]
            .iter()
            .collect();
        assert!(hex_matches(&[byte], &expected));
    }
}

#[test]
fn hello_with_its_lowercase_digest_passes() {
    assert!(verify_file_sha512_internal(b"hello", HELLO_SHA512));
}

#[test]
fn hello_with_its_uppercase_digest_is_rejected() {
    let upper = HELLO_SHA512.to_uppercase();
    assert_eq!(upper.len(), 128);
    assert!(!verify_file_sha512_internal(b"hello", &upper));
}

#[test]
fn digest_hex_of_hello_is_the_known_value() {
    assert_eq!(digest_hex(b"hello"), HELLO_SHA512);
}

#[test]
fn digest_hex_of_the_empty_buffer_is_the_known_value() {
    assert_eq!(digest_hex(b""), EMPTY_SHA512);
    assert!(verify_file_sha512_internal(b"", EMPTY_SHA512));
}

#[test]
fn digest_hex_is_128_lowercase_digits() {
    for buffer in sample_buffers() {
        let text = digest_hex(&buffer);
        assert_eq!(text.chars().count(), 128);
        assert!(text.chars().all(|c| matches!(c, '0'..='9' | 'a'..='f')));
    }
}

#[test]
fn digest_hex_spells_the_high_half_of_each_byte_first() {
    // A digest that starts with 0x9b is spelled "9b", not "b9".
    assert!(digest_hex(b"hello").starts_with("9b71"));
}

#[test]
fn genuine_digest_always_passes() {
    for buffer in sample_buffers() {
        let published = digest_hex(&buffer);
        assert!(verify_file_sha512_internal(&buffer, &published));
    }
}

#[test]
fn any_other_string_is_rejected() {
    for buffer in sample_buffers() {
        let published = digest_hex(&buffer);
        for position in [0usize, 1, 64, 127] {
            let mut altered: Vec<char> = published.chars().collect();
            altered[position] = if altered[position] == '0' { '1' } else { '0' };
            let altered: String = altered.into_iter().collect();
            assert_ne!(altered, published);
            assert!(!verify_file_sha512_internal(&buffer, &altered));
        }
    }
}

#[test]
fn digest_of_other_data_is_rejected() {
    assert!(!verify_file_sha512_internal(b"hello!", HELLO_SHA512));
    assert!(!verify_file_sha512_internal(b"", HELLO_SHA512));
    assert!(!verify_file_sha512_internal(b"hello", EMPTY_SHA512));
}

#[test]
fn empty_expected_string_is_rejected() {
    assert!(!verify_file_sha512_internal(b"hello", ""));
    assert!(!verify_file_sha512_internal(b"", ""));
}

#[test]
fn expected_string_of_wrong_length_is_rejected() {
    assert!(!verify_file_sha512_internal(b"hello", &HELLO_SHA512[..127]));
    assert!(!verify_file_sha512_internal(b"hello", &HELLO_SHA512[..64]));
    let longer = format!("{}0", HELLO_SHA512);
    assert!(!verify_file_sha512_internal(b"hello", &longer));
}

#[test]
fn expected_string_with_blanks_is_rejected() {
    let trailing_newline = format!("{}\n", HELLO_SHA512);
    assert!(!verify_file_sha512_internal(b"hello", &trailing_newline));
    let leading_space = format!(" {}", HELLO_SHA512);
    assert!(!verify_file_sha512_internal(b"hello", &leading_space));
    let with_file_name = format!("{}  hello.txt", HELLO_SHA512);
    assert!(!verify_file_sha512_internal(b"hello", &with_file_name));
}

#[test]
fn expected_string_in_mixed_case_is_rejected() {
    let mut mixed = String::from(&HELLO_SHA512[..1]);
    mixed.push_str(&HELLO_SHA512[1..].to_uppercase());
    assert!(!verify_file_sha512_internal(b"hello", &mixed));
}

#[test]
fn expected_string_that_is_no_hex_is_rejected() {
    let text = "z".repeat(128);
    assert!(!verify_file_sha512_internal(b"hello", &text));
    assert!(!verify_file_sha512_internal(b"hello", "hello"));
}

#[test]
fn repeated_calls_give_the_same_answer() {
    for buffer in sample_buffers() {
        let first = digest_hex(&buffer);
        let second = digest_hex(&buffer);
        assert_eq!(first, second);
        for expected in [first.as_str(), HELLO_SHA512, ""] {
            let once = verify_file_sha512_internal(&buffer, expected);
            let again = verify_file_sha512_internal(&buffer, expected);
            assert_eq!(once, again);
        }
    }
}

#[test]
fn owned_buffer_form_agrees_with_the_borrowed_one() {
    assert!(verify_file_sha512(b"hello".to_vec(), HELLO_SHA512));
    assert!(!verify_file_sha512(b"hello".to_vec(), EMPTY_SHA512));
    assert!(verify_file_sha512(Vec::new(), EMPTY_SHA512));
    for buffer in sample_buffers() {
        for expected in [HELLO_SHA512, EMPTY_SHA512, ""] {
            assert_eq!(
                verify_file_sha512(buffer.clone(), expected),
                verify_file_sha512_internal(&buffer, expected)
            );
        }
    }
}
