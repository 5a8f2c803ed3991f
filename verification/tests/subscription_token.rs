use std::collections::HashSet;
use zero2prod::routes::subscriptions::{
    generate_subscription_token, token_from_samples, TOKEN_LENGTH,
};

#[test]
fn token_has_25_alphanumeric_characters() {
    assert_eq!(TOKEN_LENGTH, 25);
    for _ in 0..1000 {
        let token = generate_subscription_token();
        assert_eq!(token.chars().count(), 25);
        assert_eq!(token.len(), 25);
        assert!(token.chars().all(|c| c.is_ascii_alphanumeric()), "{}", token);
    }
}

#[test]
fn tokens_never_repeat() {
    let mut seen = HashSet::new();
    for _ in 0..10_000 {
        assert!(seen.insert(generate_subscription_token()));
    }
}

#[test]
fn tokens_draw_on_the_whole_alphabet() {
    let mut seen = HashSet::new();
    for _ in 0..2000 {
        seen.extend(generate_subscription_token().chars());
    }
    assert_eq!(seen.len(), 62);
}

#[test]
fn samples_are_spelled_in_their_order() {
    assert_eq!(token_from_samples(&b"Zk3U0vq8XcTn1bR5yLw2aQ7fD".to_vec()), "Zk3U0vq8XcTn1bR5yLw2aQ7fD");
    assert_eq!(token_from_samples(&vec![b'a', b'B', b'0']), "aB0");
    assert_eq!(token_from_samples(&Vec::new()), "");
    assert_eq!(token_from_samples(&vec![0xe9]), "\u{e9}");
}
