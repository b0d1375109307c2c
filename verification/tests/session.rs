use jido_conductor::session::{get_session_token, AppState, SessionHolder};

/// The places of a token that hold a hyphen.
fn hyphen_places() -> [usize; 4] {
    [8, 13, 18, 23]
}

/// Checks the token character by character, independently of the library.
fn reads_as_version_4(token: &str) -> bool {
    let chars: Vec<char> = token.chars().collect();
    if chars.len() != 36 {
        return false;
    }
    for (i, c) in chars.iter().enumerate() {
        if hyphen_places().contains(&i) {
            if *c != '-' {
                return false;
            }
        } else if !(c.is_ascii_digit() || ('a'..='f').contains(c)) {
            return false;
        }
    }
    chars[14] == '4' && ['8', '9', 'a', 'b'].contains(&chars[19])
}

#[test]
fn with_identifier_writes_the_hyphenated_form() {
    let state = AppState::with_identifier(0xa1a2a3a4_b1b2_41c2_91d2_d3d4d5d6d7d8u128);
    assert_eq!(state.session_token, "a1a2a3a4-b1b2-41c2-91d2-d3d4d5d6d7d8");
}

#[test]
fn with_identifier_of_zero_is_all_zero_digits() {
    let state = AppState::with_identifier(0);
    assert_eq!(state.session_token, "00000000-0000-0000-0000-000000000000");
}

#[test]
fn with_identifier_of_all_ones_is_all_f_digits() {
    let state = AppState::with_identifier(u128::MAX);
    assert_eq!(state.session_token, "ffffffff-ffff-ffff-ffff-ffffffffffff");
}

#[test]
fn with_identifier_puts_the_most_significant_digit_first() {
    let state = AppState::with_identifier(0x0123456789abcdef_fedcba9876543210u128);
    assert_eq!(state.session_token, "01234567-89ab-cdef-fedc-ba9876543210");
}

#[test]
fn with_identifier_uses_lower_case_digits() {
    let state = AppState::with_identifier(0xABCDEFABCDEF4ABC8DEFABCDEFABCDEFu128);
    assert_eq!(state.session_token, "abcdefab-cdef-4abc-8def-abcdefabcdef");
}

#[test]
fn with_identifier_agrees_with_digit_by_digit_formatting() {
    let bits: u128 = 0x5f0c1e2d_3b4a_4978_a6b5_c4d3e2f1a0b9;
    let mut expected = String::new();
    for k in 0..32u32 {
        if k == 8 || k == 12 || k == 16 || k == 20 {
            expected.push('-');
        }
        let digit = ((bits >> (124 - 4 * k)) & 0xf) as u32;
        expected.push(char::from_digit(digit, 16).unwrap());
    }
    assert_eq!(AppState::with_identifier(bits).session_token, expected);
}

#[test]
fn version_4_bits_give_a_version_4_token() {
    let state = AppState::with_identifier(0x00000000_0000_4000_8000_000000000000u128);
    assert_eq!(state.session_token, "00000000-0000-4000-8000-000000000000");
    assert!(reads_as_version_4(&state.session_token));
}

#[test]
fn other_bits_give_a_token_of_another_version() {
    let state = AppState::with_identifier(0x00000000_0000_1000_8000_000000000000u128);
    assert_eq!(state.session_token, "00000000-0000-1000-8000-000000000000");
    assert!(!reads_as_version_4(&state.session_token));
}

#[test]
fn default_token_reads_as_version_4() {
    let state = AppState::default();
    assert!(reads_as_version_4(&state.session_token));
}

#[test]
fn default_token_parses_as_a_random_identifier() {
    let state = AppState::default();
    let parsed = uuid::Uuid::parse_str(&state.session_token).unwrap();
    assert_eq!(parsed.get_version_num(), 4);
    assert_eq!(parsed.get_variant(), uuid::Variant::RFC4122);
    assert_eq!(parsed.as_hyphenated().to_string(), state.session_token);
}

#[test]
fn two_starts_give_two_valid_and_distinct_tokens() {
    let first = get_session_token(&SessionHolder::initialize());
    let second = get_session_token(&SessionHolder::initialize());
    assert!(reads_as_version_4(&first));
    assert!(reads_as_version_4(&second));
    assert_ne!(first, second);
}

#[test]
fn many_defaults_are_pairwise_distinct() {
    let mut tokens: Vec<String> = Vec::new();
    for _ in 0..64 {
        tokens.push(AppState::default().session_token);
    }
    for i in 0..tokens.len() {
        for j in 0..i {
            assert_ne!(tokens[i], tokens[j]);
        }
    }
}

#[test]
fn holder_returns_the_token_it_was_given() {
    let state = AppState::with_identifier(0x9b2d7c1e_05fa_4c3b_b1a2_0f9e8d7c6b5au128);
    let holder = SessionHolder::new(state);
    assert_eq!(get_session_token(&holder), "9b2d7c1e-05fa-4c3b-b1a2-0f9e8d7c6b5a");
}

#[test]
fn holder_keeps_any_token_unchanged() {
    let holder = SessionHolder::new(AppState { session_token: String::from("not an identifier") });
    assert_eq!(get_session_token(&holder), "not an identifier");
    assert_eq!(get_session_token(&holder), "not an identifier");
}

#[test]
fn token_is_the_same_at_every_read() {
    let holder = SessionHolder::initialize();
    let first = get_session_token(&holder);
    for _ in 0..100 {
        assert_eq!(get_session_token(&holder), first);
    }
}

#[test]
fn reading_leaves_the_lock_free_for_shared_readers() {
    let holder = SessionHolder::initialize();
    let shared = &holder;
    let a = get_session_token(shared);
    let b = get_session_token(shared);
    let c = get_session_token(&holder);
    assert_eq!(a, b);
    assert_eq!(b, c);
}

fn shared_between_threads<T: Send + Sync + 'static>(_: &T) -> bool {
    true
}

#[test]
fn holder_can_be_shared_between_threads() {
    let holder = SessionHolder::initialize();
    assert!(shared_between_threads(&holder));
}

#[test]
fn identifiers_that_differ_in_one_bit_give_different_tokens() {
    let base: u128 = 0x9b2d7c1e_05fa_4c3b_b1a2_0f9e8d7c6b5a;
    let token = AppState::with_identifier(base).session_token;
    for bit in 0..128u32 {
        let other = AppState::with_identifier(base ^ (1u128 << bit)).session_token;
        assert_ne!(other, token);
    }
}
