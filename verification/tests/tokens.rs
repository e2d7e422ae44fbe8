use aichat::utils::tokens::{count_tokens, tokenize};

#[test]
fn tokenize_keeps_the_white_space_with_the_word_before_it() {
    assert_eq!(tokenize("hello there world"), vec!["hello ", "there ", "world"]);
}

#[test]
fn tokenize_ends_a_token_at_every_white_space() {
    assert_eq!(tokenize("a  b"), vec!["a ", " ", "b"]);
    assert_eq!(tokenize("a\tb\nc\rd"), vec!["a\t", "b\n", "c\r", "d"]);
    assert_eq!(tokenize(" x"), vec![" ", "x"]);
}

#[test]
fn tokenize_of_nothing_is_nothing() {
    assert_eq!(tokenize(""), Vec::<String>::new());
    assert_eq!(count_tokens(""), 0);
}

#[test]
fn tokenize_of_one_word_is_the_word() {
    assert_eq!(tokenize("abc"), vec!["abc"]);
    assert_eq!(tokenize("abc\n"), vec!["abc\n"]);
}

#[test]
fn tokens_put_together_give_the_text() {
    for text in ["", "abc", "one two  three\n\nfour ", "\t\r\n", "héllo wörld ✓ 你好 世界"] {
        assert_eq!(tokenize(text).concat(), text);
    }
}

#[test]
fn count_tokens_is_the_number_of_tokens() {
    for text in ["", "abc", "one two  three\n\nfour ", "\t\r\n", "héllo wörld ✓ 你好 世界", " "] {
        assert_eq!(count_tokens(text), tokenize(text).len());
    }
    assert_eq!(count_tokens("one two  three\n\nfour "), 6);
    assert_eq!(count_tokens("héllo wörld"), 2);
}
