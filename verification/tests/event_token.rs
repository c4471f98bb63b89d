use mio::Token;
use rust_async::event_token::EventToken;

#[test]
fn tokens_count_up_from_zero() {
    let mut tokens = EventToken::new();
    assert_eq!(tokens.next(), Token(0));
    assert_eq!(tokens.next(), Token(1));
    let third = tokens.next();
    assert_eq!(usize::from(third), 2);
}

#[test]
fn tokens_handed_out_are_distinct() {
    let mut tokens = EventToken::new();
    let handed: Vec<Token> = (0..100).map(|_| tokens.next()).collect();
    for i in 0..handed.len() {
        assert_eq!(usize::from(handed[i]), i);
        for j in 0..i {
            assert_ne!(handed[i], handed[j]);
        }
    }
}
