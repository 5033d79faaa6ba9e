use rk8s::join::{
    first_new, is_listed, is_whitespace, matching_tokens, split_whitespace, JoinError,
    JoinTimeoutError, JoinWatcher, NamePattern, WatchAction, JOIN_REQUEST_PATTERN,
};

fn strings(words: &[&str]) -> Vec<String> {
    words.iter().map(|w| w.to_string()).collect()
}

#[test]
fn words_are_split_at_white_space() {
    assert_eq!(split_whitespace("ready node-join-abc123 other"), strings(&["ready", "node-join-abc123", "other"]));
    assert_eq!(split_whitespace("  a\t\tb\nc  "), strings(&["a", "b", "c"]));
    assert_eq!(split_whitespace(""), Vec::<String>::new());
    assert_eq!(split_whitespace(" \n\t "), Vec::<String>::new());
    assert_eq!(split_whitespace("one"), strings(&["one"]));
    assert_eq!(split_whitespace("é\u{a0}ü\u{3000}ß"), strings(&["é", "ü", "ß"]));
}

#[test]
fn split_agrees_with_std() {
    for text in [
        "NAME AGE\nnode-csr-x 1m Pending",
        "\u{2003}x\u{2028}y\u{85}z",
        "a\u{200b}b",
        "tab\there",
        "",
    ] {
        let expected: Vec<String> = text.split_whitespace().map(|w| w.to_string()).collect();
        assert_eq!(split_whitespace(text), expected);
    }
}

#[test]
fn white_space_agrees_with_std() {
    let mut c = 0u32;
    while c <= 0x3100 {
        if let Some(ch) = char::from_u32(c) {
            assert_eq!(is_whitespace(ch), ch.is_whitespace());
        }
        c += 1;
    }
}

#[test]
fn matcher_returns_the_matching_token_and_ignores_the_others() {
    let pattern = NamePattern::new(r"node-join-\S*").unwrap();
    let mut watcher = JoinWatcher::new(10);
    let action = watcher.on_poll(&pattern, "ready node-join-abc123 other");
    assert_eq!(action, WatchAction::Approve("node-join-abc123".to_string()));
    assert!(watcher.has_handled("node-join-abc123"));
    assert!(!watcher.has_handled("ready"));
    assert_eq!(watcher.polls(), 1);
}

#[test]
fn matcher_keeps_polling_without_a_matching_token() {
    let pattern = NamePattern::new(r"node-join-\S*").unwrap();
    let mut watcher = JoinWatcher::new(10);
    assert_eq!(watcher.on_poll(&pattern, "ready other"), WatchAction::PollAgain);
    assert_eq!(watcher.on_poll(&pattern, ""), WatchAction::PollAgain);
    assert_eq!(watcher.polls(), 2);
    assert_eq!(
        watcher.on_poll(&pattern, "x node-join-1 y"),
        WatchAction::Approve("node-join-1".to_string())
    );
}

#[test]
fn pattern_decides_which_tokens_match() {
    let pattern = NamePattern::new(JOIN_REQUEST_PATTERN).unwrap();
    assert!(pattern.matches("node-csr-abc"));
    assert!(pattern.matches("node-csr-"));
    assert!(!pattern.matches("node-csr"));
    assert!(!pattern.matches("pending"));
    assert_eq!(
        matching_tokens(&pattern, "NAME AGE node-csr-a 5s Pending node-csr-b 9s Pending"),
        strings(&["node-csr-a", "node-csr-b"])
    );
    assert_eq!(matching_tokens(&pattern, "nothing here"), Vec::<String>::new());
    let digits = NamePattern::new(r"^[0-9]+$").unwrap();
    assert_eq!(matching_tokens(&digits, "a 12 b3 456"), strings(&["12", "456"]));
}

#[test]
fn invalid_pattern_is_refused() {
    assert_eq!(NamePattern::new("node-(").err(), Some(JoinError::InvalidPattern));
    assert_eq!(NamePattern::new("[").err(), Some(JoinError::InvalidPattern));
    assert_eq!(NamePattern::new(r"\w{1000}").err(), Some(JoinError::InvalidPattern));
    assert_eq!(NamePattern::new("a|b").unwrap().source(), "a|b");
    assert!(NamePattern::new("").unwrap().matches("anything"));
}

#[test]
fn token_seen_again_is_not_approved_again() {
    let pattern = NamePattern::new(JOIN_REQUEST_PATTERN).unwrap();
    let mut watcher = JoinWatcher::new(10);
    assert_eq!(
        watcher.on_poll(&pattern, "node-csr-a Pending"),
        WatchAction::Approve("node-csr-a".to_string())
    );
    assert_eq!(watcher.on_poll(&pattern, "node-csr-a Pending"), WatchAction::PollAgain);
    assert_eq!(
        watcher.on_poll(&pattern, "node-csr-a Approved node-csr-b Pending"),
        WatchAction::Approve("node-csr-b".to_string())
    );
    assert_eq!(
        watcher.on_poll(&pattern, "node-csr-b Approved node-csr-a Approved"),
        WatchAction::PollAgain
    );
    assert!(watcher.has_handled("node-csr-a"));
    assert!(watcher.has_handled("node-csr-b"));
}

#[test]
fn watcher_gives_up_at_the_bound() {
    let mut watcher = JoinWatcher::new(3);
    let nothing: Vec<String> = Vec::new();
    assert_eq!(watcher.next(&nothing), WatchAction::PollAgain);
    assert_eq!(watcher.next(&nothing), WatchAction::PollAgain);
    assert_eq!(watcher.next(&nothing), WatchAction::GiveUp(JoinTimeoutError { polls: 3 }));
    assert_eq!(watcher.next(&nothing), WatchAction::GiveUp(JoinTimeoutError { polls: 4 }));
}

#[test]
fn watcher_with_no_poll_allowed_gives_up_at_once() {
    let mut watcher = JoinWatcher::new(0);
    assert_eq!(
        watcher.next(&Vec::new()),
        WatchAction::GiveUp(JoinTimeoutError { polls: 1 })
    );
}

#[test]
fn request_found_at_the_last_poll_is_approved() {
    let mut watcher = JoinWatcher::new(1);
    assert_eq!(
        watcher.next(&strings(&["node-csr-z"])),
        WatchAction::Approve("node-csr-z".to_string())
    );
}

#[test]
fn first_new_skips_what_was_handled() {
    let handled = strings(&["a", "b"]);
    assert_eq!(first_new(&strings(&["a", "b", "c", "d"]), &handled), Some(2));
    assert_eq!(first_new(&strings(&["c"]), &handled), Some(0));
    assert_eq!(first_new(&strings(&["b", "a"]), &handled), None);
    assert_eq!(first_new(&Vec::new(), &handled), None);
    assert_eq!(first_new(&strings(&["a"]), &Vec::new()), Some(0));
    assert!(is_listed(&handled, "b"));
    assert!(!is_listed(&handled, "ab"));
    assert!(!is_listed(&Vec::new(), ""));
}
