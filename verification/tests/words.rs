use chatpete::words::{find_word, is_word, join_words, words_from};

fn words(list: &[&str]) -> Vec<String> {
    list.iter().map(|w| w.to_string()).collect()
}

#[test]
fn join_words_puts_the_separator_between() {
    assert_eq!(join_words(&words(&["what", "is", "2+2?"]), " "), "what is 2+2?");
    assert_eq!(join_words(&words(&["a", "b", "c"]), ", "), "a, b, c");
}

#[test]
fn join_words_without_separator_concatenates() {
    assert_eq!(join_words(&words(&["yo", "bot"]), ""), "yobot");
}

#[test]
fn join_words_of_one_word_is_the_word() {
    assert_eq!(join_words(&words(&["alone"]), " "), "alone");
}

#[test]
fn join_words_of_no_word_is_empty() {
    assert_eq!(join_words(&[], " "), "");
}

#[test]
fn join_words_keeps_empty_words() {
    assert_eq!(join_words(&words(&["", "a", ""]), "-"), "-a-");
}

#[test]
fn join_words_length_is_words_plus_separators() {
    let list = words(&["what", "is", "2+2?"]);
    let text = join_words(&list, " ");
    assert_eq!(text.chars().count(), 4 + 2 + 4 + 2);
}

#[test]
fn find_word_gives_the_first_position() {
    let list = words(&["a", "--model", "b", "--model"]);
    assert_eq!(find_word(&list, "--model"), 1);
    assert_eq!(find_word(&list, "a"), 0);
}

#[test]
fn find_word_gives_the_length_where_absent() {
    let list = words(&["a", "b"]);
    assert_eq!(find_word(&list, "c"), 2);
    assert_eq!(find_word(&[], "c"), 0);
}

#[test]
fn words_from_drops_the_front() {
    let list = words(&["<@42>", "chat", "hi"]);
    assert_eq!(words_from(&list, 1), &words(&["chat", "hi"])[..]);
    assert_eq!(words_from(&list, 0), &list[..]);
    assert_eq!(words_from(&list, 3), &Vec::<String>::new()[..]);
}

#[test]
fn words_from_past_the_end_is_empty() {
    let list = words(&["a"]);
    assert!(words_from(&list, 5).is_empty());
    assert!(words_from(&[], 1).is_empty());
}

#[test]
fn is_word_compares_the_text() {
    assert!(is_word(&"chat".to_string(), "chat"));
    assert!(!is_word(&"Chat".to_string(), "chat"));
    assert!(!is_word(&"chats".to_string(), "chat"));
}
