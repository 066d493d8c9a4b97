use travis_cargo::utils::{redact, run, run_filter, run_output, settle, Outcome, Report, Stdout, MASK};

fn masked(text: &str, token: &str) -> String {
    String::from_utf8(redact(text.as_bytes(), token.as_bytes())).unwrap()
}

#[test]
fn mask_is_a_capital_x() {
    assert_eq!(MASK, b'X');
}

#[test]
fn every_occurrence_is_masked() {
    assert_eq!(masked("token=abc123 and abc123", "abc123"), "token=XXXXXX and XXXXXX");
    assert_eq!(masked("abc123", "abc123"), "XXXXXX");
    assert_eq!(masked("abc123abc123", "abc123"), "XXXXXXXXXXXX");
}

#[test]
fn text_without_the_token_is_unchanged() {
    assert_eq!(masked("nothing to see", "abc123"), "nothing to see");
    assert_eq!(masked("", "abc123"), "");
    assert_eq!(masked("abc12", "abc123"), "abc12");
}

#[test]
fn empty_token_masks_nothing() {
    assert_eq!(masked("some output", ""), "some output");
    assert_eq!(masked("", ""), "");
}

#[test]
fn masking_keeps_the_length() {
    for (text, token) in [("a secret here", "secret"), ("aaaa", "aa"), ("xyz", "xyzw"), ("", "a")] {
        assert_eq!(redact(text.as_bytes(), token.as_bytes()).len(), text.len());
    }
}

#[test]
fn overlapping_occurrences_are_taken_from_the_left() {
    assert_eq!(masked("aaa", "aa"), "XXa");
    assert_eq!(masked("aaaa", "aa"), "XXXX");
    assert_eq!(masked("ababa", "aba"), "XXXba");
}

#[test]
fn a_token_with_the_mask_byte_in_it() {
    assert_eq!(masked("aaX", "aX"), "aXX");
    assert_eq!(masked("XXX", "X"), "XXX");
}

#[test]
fn the_mask_is_as_long_as_the_token_in_bytes() {
    let text = "key=\u{e9}\u{e9} end";
    let token = "\u{e9}\u{e9}";
    assert_eq!(token.len(), 4);
    assert_eq!(masked(text, token), "key=XXXX end");
}

#[test]
fn masking_agrees_with_replacing() {
    let cases = [
        ("https://s3cr3t@github.com/u/r.git s3cr3t", "s3cr3t"),
        ("aaaaa", "aa"),
        ("abcabcab", "abc"),
        ("line one\nline two\n", "line"),
        ("no match", "zzz"),
        ("\u{4e2d}\u{6587} \u{4e2d}", "\u{4e2d}"),
        ("short", "much longer than the text"),
    ];
    for (text, token) in cases {
        let run_of_mask = "X".repeat(token.len());
        assert_eq!(masked(text, token), text.replace(token, &run_of_mask), "{:?} {:?}", text, token);
    }
}

#[test]
fn bytes_that_are_no_text_are_masked_too() {
    assert_eq!(redact(&[0xff, 0x00, 0xfe, 0x00, 0xfe], &[0x00, 0xfe]), vec![0xff, MASK, MASK, MASK, MASK]);
}

#[test]
fn exit_code_zero_proceeds() {
    assert_eq!(run(0), Outcome::Proceed);
}

#[test]
fn any_other_exit_code_aborts_with_it() {
    assert_eq!(run(3), Outcome::Abort(3));
    assert_eq!(run(1), Outcome::Abort(1));
    assert_eq!(run(-1), Outcome::Abort(-1));
    assert_eq!(run(i32::MAX), Outcome::Abort(i32::MAX));
    assert_eq!(run(i32::MIN), Outcome::Abort(i32::MIN));
}

#[test]
fn captured_output_is_printed_only_on_failure() {
    assert_eq!(
        run_output(0, "all fine\n"),
        Report { console: Vec::new(), outcome: Outcome::Proceed }
    );
    assert_eq!(
        run_output(101, "it broke\n"),
        Report { console: b"it broke\n".to_vec(), outcome: Outcome::Abort(101) }
    );
}

#[test]
fn filtered_output_is_printed_masked_on_success() {
    assert_eq!(
        run_filter("hunter2", 0, "pushing to https://hunter2@host/repo\n"),
        Report { console: b"pushing to https://XXXXXXX@host/repo\n".to_vec(), outcome: Outcome::Proceed }
    );
}

#[test]
fn filtered_output_is_printed_masked_on_failure() {
    assert_eq!(
        run_filter("hunter2", 128, "fatal: hunter2 rejected\n"),
        Report { console: b"fatal: XXXXXXX rejected\n".to_vec(), outcome: Outcome::Abort(128) }
    );
}

#[test]
fn settle_goes_by_the_treatment_of_output() {
    assert_eq!(
        settle(&Stdout::Inherit, 0, "ignored"),
        Report { console: Vec::new(), outcome: Outcome::Proceed }
    );
    assert_eq!(
        settle(&Stdout::Inherit, 2, "ignored"),
        Report { console: Vec::new(), outcome: Outcome::Abort(2) }
    );
    assert_eq!(settle(&Stdout::Capture, 0, "out"), run_output(0, "out"));
    assert_eq!(settle(&Stdout::Capture, 7, "out"), run_output(7, "out"));
    assert_eq!(
        settle(&Stdout::Redact("key".to_string()), 0, "a key b"),
        Report { console: b"a XXX b".to_vec(), outcome: Outcome::Proceed }
    );
    assert_eq!(
        settle(&Stdout::Redact("key".to_string()), 9, "a key b"),
        Report { console: b"a XXX b".to_vec(), outcome: Outcome::Abort(9) }
    );
}

#[test]
fn a_secret_without_the_mask_byte_is_gone() {
    let cases = [
        ("https://s3cr3t@github.com/u/r.git s3cr3t", "s3cr3t"),
        ("aaaaa", "aa"),
        ("ababababa", "aba"),
        ("abcabcabcab", "abcab"),
        ("tokentoken tok token", "token"),
    ];
    for (text, token) in cases {
        let printed = String::from_utf8(redact(text.as_bytes(), token.as_bytes())).unwrap();
        assert!(!printed.contains(token), "{:?} {:?}", text, token);
    }
}

#[test]
fn the_first_byte_of_every_occurrence_is_masked() {
    let text = b"aXaXaX ... aXaX";
    let token = b"aXa";
    let printed = redact(text, token);
    for at in 0..=(text.len() - token.len()) {
        if &text[at..at + token.len()] == token {
            assert_eq!(printed[at], MASK, "{}", at);
        }
    }
}
