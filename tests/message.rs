use baps3_cli::message::Message;
use baps3_cli::wire::pack;

#[test]
fn from_word_has_word() {
    let m = Message::from_word("bird");
    assert_eq!(m.word(), "bird");
}

#[test]
fn from_word_has_no_args() {
    let m = Message::from_word("bird");
    assert!(m.args().is_empty());
}

#[test]
fn new_keeps_word_and_args() {
    let m = Message::new("foo", &["bar", "baz"]);
    assert_eq!(m.word(), "foo");
    assert_eq!(m.args(), vec!["bar", "baz"]);
}

#[test]
fn args_keep_order_and_duplicates() {
    let m = Message::new("x", &["b", "a", "b"]);
    assert_eq!(m.args(), vec!["b", "a", "b"]);
}

#[test]
fn as_str_vec_puts_word_first() {
    let m = Message::new("foo", &["bar", "baz"]);
    assert_eq!(m.as_str_vec(), vec!["foo", "bar", "baz"]);
}

#[test]
fn clone_is_equal() {
    let m = Message::new("foo", &["a b", "c"]);
    let c = m.clone();
    assert_eq!(c.word(), "foo");
    assert_eq!(c.args(), vec!["a b", "c"]);
}

#[test]
fn pack_plain_arguments() {
    let m = Message::new("foo", &["bar", "baz"]);
    assert_eq!(m.pack().as_str(), "foo bar baz");
}

#[test]
fn pack_escapes_special_characters() {
    let m = Message::new("foo", &["with space", "'single'", "\"double\""]);
    assert_eq!(m.pack().as_str(), "foo 'with space' ''\\''single'\\''' '\"double\"'");
}

#[test]
fn pack_word_alone() {
    assert_eq!(Message::from_word("play").pack(), "play");
}

#[test]
fn pack_empty_argument_is_bare() {
    assert_eq!(pack("seek", &[""]), "seek ");
}

#[test]
fn pack_non_ascii_argument() {
    assert_eq!(pack("load", &["café", "naïve file"]), "load café 'naïve file'");
}
