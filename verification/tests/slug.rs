use article_store::{compose_slug, generate_slug};

const HELLO_ID: u128 = 0x557c8018_5e21_4b74_8bb0_9040e2e8ead1;

#[test]
fn slug_is_token_hyphen_words() {
    assert_eq!(generate_slug(HELLO_ID, "Hello World"), "VXyAGF4hS3SLsJBA4ujq0Q-hello-world");
}

#[test]
fn token_of_smallest_and_largest_id() {
    assert_eq!(generate_slug(0, "a"), "AAAAAAAAAAAAAAAAAAAAAA-a");
    assert_eq!(generate_slug(1, "a"), "AAAAAAAAAAAAAAAAAAAAAQ-a");
    assert_eq!(generate_slug(u128::MAX, "a"), "_____________________w-a");
}

#[test]
fn token_has_22_characters() {
    for id in [0u128, 1, 63, 64, HELLO_ID, u128::MAX - 1, u128::MAX] {
        let slug = generate_slug(id, "x");
        assert_eq!(slug.len(), 24);
        assert_eq!(&slug[22..], "-x");
    }
}

#[test]
fn same_title_different_ids_give_different_slugs() {
    let a = generate_slug(10, "Same Title");
    let b = generate_slug(11, "Same Title");
    assert_ne!(a, b);
    assert_eq!(&a[22..], "-same-title");
    assert_eq!(&b[22..], "-same-title");
}

#[test]
fn slug_depends_on_nothing_else() {
    assert_eq!(generate_slug(HELLO_ID, "Hello World"), generate_slug(HELLO_ID, "Hello World"));
}

#[test]
fn title_is_lower_cased_and_punctuation_collapsed() {
    assert_eq!(
        generate_slug(0, "My Test String!!!1!1"),
        "AAAAAAAAAAAAAAAAAAAAAA-my-test-string-1-1"
    );
    assert_eq!(generate_slug(0, "test\nit   now!"), "AAAAAAAAAAAAAAAAAAAAAA-test-it-now");
    assert_eq!(generate_slug(0, "  --test_-_cool"), "AAAAAAAAAAAAAAAAAAAAAA-test-cool");
    assert_eq!(generate_slug(0, "You & Me"), "AAAAAAAAAAAAAAAAAAAAAA-you-me");
    assert_eq!(generate_slug(0, "Æúű--cool?"), "AAAAAAAAAAAAAAAAAAAAAA-aeuu-cool");
    assert_eq!(generate_slug(0, "user@example.com"), "AAAAAAAAAAAAAAAAAAAAAA-user-example-com");
}

#[test]
fn title_without_letters_leaves_only_the_token() {
    assert_eq!(generate_slug(0, ""), "AAAAAAAAAAAAAAAAAAAAAA-");
    assert_eq!(generate_slug(0, "!!!"), "AAAAAAAAAAAAAAAAAAAAAA-");
}

#[test]
fn slug_is_url_safe() {
    for (id, title) in [(HELLO_ID, "Hello, World?"), (u128::MAX, "a/b c&d=e"), (62, "Æúű--cool?")] {
        let slug = generate_slug(id, title);
        assert!(slug.chars().all(|c| c.is_ascii_alphanumeric() || c == '-' || c == '_'));
    }
}

#[test]
fn compose_joins_with_one_hyphen() {
    assert_eq!(compose_slug("abc", "def"), "abc-def");
    assert_eq!(compose_slug("", ""), "-");
    assert_eq!(compose_slug("abc", ""), "abc-");
}

fn digit(value: u128) -> char {
    let alphabet = "ABCDEFGHIJKLMNOPQRSTUVWXYZabcdefghijklmnopqrstuvwxyz0123456789-_";
    alphabet.as_bytes()[value as usize] as char
}

fn token(id: u128) -> String {
    let mut digits = vec![digit((id % 4) * 16)];
    let mut rest = id / 4;
    for _ in 0..21 {
        digits.push(digit(rest % 64));
        rest /= 64;
    }
    digits.iter().rev().collect()
}

#[test]
fn token_is_the_id_in_base_64_padded_with_four_zero_bits() {
    let mut id: u128 = 0x0123_4567_89ab_cdef_fedc_ba98_7654_3210;
    for round in 0..200u128 {
        let slug = generate_slug(id, "t");
        assert_eq!(&slug[..22], token(id));
        id = id.rotate_left(7) ^ (round * 0x9e37_79b9_7f4a_7c15);
    }
    for bit in 0..128 {
        let id = 1u128 << bit;
        assert_eq!(&generate_slug(id, "t")[..22], token(id));
    }
}

#[test]
fn different_ids_have_different_tokens() {
    let mut seen = std::collections::BTreeSet::new();
    for id in 0..500u128 {
        assert!(seen.insert(generate_slug(id, "same")));
        assert!(seen.insert(generate_slug(u128::MAX - id, "same")));
    }
}
