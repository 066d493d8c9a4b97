use travis_cargo::toolchain::{channel, contains_word, selected};

#[test]
fn the_compiler_names_its_channel() {
    assert_eq!(channel("rustc 1.5.0-nightly (6e5a32547 2015-09-19)\n"), "nightly");
    assert_eq!(channel("rustc 1.4.0-beta.2 (e0a4d1631 2015-10-01)\n"), "beta");
    assert_eq!(channel("rustc 1.3.0 (9a92aaf19 2015-09-15)\n"), "");
    assert_eq!(channel(""), "");
}

#[test]
fn nightly_goes_before_beta() {
    assert_eq!(channel("beta nightly"), "nightly");
    assert_eq!(channel("nightly beta"), "nightly");
}

#[test]
fn a_development_build_names_no_channel() {
    assert_eq!(channel("rustc 1.5.0-dev (abcdef 2015-09-19)\n"), "");
}

#[test]
fn words_are_found_anywhere() {
    assert!(contains_word("abc", "abc"));
    assert!(contains_word("xxabc", "abc"));
    assert!(contains_word("abcxx", "abc"));
    assert!(contains_word("aabaabc", "abc"));
    assert!(contains_word("abc", ""));
    assert!(contains_word("", ""));
    assert!(!contains_word("", "a"));
    assert!(!contains_word("ab", "abc"));
    assert!(!contains_word("abxc", "abc"));
    assert!(contains_word("caf\u{e9} nightly", "nightly"));
    assert!(contains_word("caf\u{e9}", "\u{e9}"));
}

#[test]
fn finding_agrees_with_the_standard_library() {
    let texts = ["", "a", "nightly", "rustc 1.0.0-beta", "aaab", "abababc", "nigh tly"];
    let words = ["", "a", "b", "ab", "abc", "nightly", "beta", "ly"];
    for text in texts {
        for word in words {
            assert_eq!(contains_word(text, word), text.contains(word), "{:?} {:?}", text, word);
        }
    }
}

#[test]
fn a_command_runs_unless_told_otherwise() {
    assert!(selected(None, None, "stable"));
    assert!(selected(None, None, ""));
}

#[test]
fn only_names_the_one_channel_to_run_on() {
    assert!(selected(Some("nightly"), None, "nightly"));
    assert!(!selected(Some("nightly"), None, "stable"));
    assert!(!selected(Some("nightly"), None, ""));
    assert!(selected(Some(""), None, ""));
}

#[test]
fn skip_names_the_one_channel_not_to_run_on() {
    assert!(!selected(None, Some("nightly"), "nightly"));
    assert!(selected(None, Some("nightly"), "beta"));
    assert!(!selected(Some("nightly"), Some("nightly"), "nightly"));
    assert!(!selected(Some("beta"), Some("nightly"), "nightly"));
    assert!(selected(Some("beta"), Some("nightly"), "beta"));
}
