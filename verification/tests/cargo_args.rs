use travis_cargo::cargo::{accepts, add_features, ends_on_flag, run, wants_feature};

fn strings(words: &[&str]) -> Vec<String> {
    words.iter().map(|word| word.to_string()).collect()
}

#[test]
fn nightly_appends_flag_and_default_feature() {
    let mut args = strings(&["--release"]);
    add_features(&mut args, "nightly", None);
    assert_eq!(args, strings(&["--release", "--features", "unstable"]));
}

#[test]
fn nightly_appends_pair_to_empty_list() {
    let mut args: Vec<String> = Vec::new();
    add_features(&mut args, "nightly", Some("F"));
    assert_eq!(args, strings(&["--features", "F"]));
}

#[test]
fn stable_and_beta_change_nothing() {
    for version in ["stable", "beta", "1.70.0", ""] {
        for feature in [None, Some("F"), Some("")] {
            let mut args = strings(&["--features", "a", "--features=b", "-p", "x"]);
            add_features(&mut args, version, feature);
            assert_eq!(args, strings(&["--features", "a", "--features=b", "-p", "x"]));
            let mut bare = strings(&["--release"]);
            add_features(&mut bare, version, feature);
            assert_eq!(bare, strings(&["--release"]));
        }
    }
}

#[test]
fn inline_list_is_extended_in_place() {
    let mut args = strings(&["--features=existing"]);
    add_features(&mut args, "nightly", Some("F"));
    assert_eq!(args, strings(&["--features=existing F"]));
}

#[test]
fn inline_list_keeps_its_place_among_others() {
    let mut args = strings(&["--release", "--features=a b", "--", "--nocapture"]);
    add_features(&mut args, "nightly", None);
    assert_eq!(args, strings(&["--release", "--features=a b unstable", "--", "--nocapture"]));
}

#[test]
fn list_after_flag_is_extended() {
    let mut args = strings(&["--features", "existing", "--release"]);
    add_features(&mut args, "nightly", None);
    assert_eq!(args, strings(&["--features", "existing unstable", "--release"]));
}

#[test]
fn both_flags_are_extended() {
    let mut args = strings(&["--features", "a", "-p", "x", "--features", "b"]);
    add_features(&mut args, "nightly", None);
    assert_eq!(args, strings(&["--features", "a unstable", "-p", "x", "--features", "b unstable"]));
}

#[test]
fn flag_and_inline_list_are_both_extended() {
    let mut args = strings(&["--features=a", "--features", "b"]);
    add_features(&mut args, "nightly", Some("F"));
    assert_eq!(args, strings(&["--features=a F", "--features", "b F"]));
}

#[test]
fn empty_feature_switches_the_step_off() {
    let mut args = strings(&["--features", "a", "-p", "x"]);
    add_features(&mut args, "nightly", Some(""));
    assert_eq!(args, strings(&["--features", "a", "-p", "x"]));
    let mut bare = strings(&["-p", "x"]);
    add_features(&mut bare, "nightly", Some(""));
    assert_eq!(bare, strings(&["-p", "x"]));
}

#[test]
fn named_feature_takes_the_place_of_the_default() {
    let mut args = strings(&["--features", "a"]);
    add_features(&mut args, "nightly", Some("nightly-only"));
    assert_eq!(args, strings(&["--features", "a nightly-only"]));
}

#[test]
fn a_second_pass_appends_again() {
    let mut args = strings(&["--release"]);
    add_features(&mut args, "nightly", None);
    add_features(&mut args, "nightly", None);
    assert_eq!(args, strings(&["--release", "--features", "unstable unstable"]));
}

#[test]
fn a_flag_in_the_place_of_a_list_is_a_list() {
    let mut args = strings(&["--features", "--features", "x"]);
    add_features(&mut args, "nightly", None);
    assert_eq!(args, strings(&["--features", "--features unstable", "x"]));
}

#[test]
fn a_list_that_ends_as_a_flag_may_end_the_arguments() {
    let mut args = strings(&["--features", "--features"]);
    assert!(!ends_on_flag(&args));
    add_features(&mut args, "nightly", None);
    assert_eq!(args, strings(&["--features", "--features unstable"]));
}

#[test]
fn an_inline_list_after_a_flag_is_extended_twice() {
    let mut args = strings(&["--features", "--features=x"]);
    add_features(&mut args, "nightly", None);
    assert_eq!(args, strings(&["--features", "--features=x unstable unstable"]));
}

#[test]
fn near_misses_are_no_feature_tokens() {
    let mut args = strings(&["--feature", "--features-x", "features", "-features="]);
    add_features(&mut args, "nightly", None);
    assert_eq!(
        args,
        strings(&["--feature", "--features-x", "features", "-features=", "--features", "unstable"])
    );
}

#[test]
fn ends_on_flag_tells_flags_from_lists() {
    assert!(!ends_on_flag(&strings(&[])));
    assert!(ends_on_flag(&strings(&["--features"])));
    assert!(ends_on_flag(&strings(&["test", "--features"])));
    assert!(!ends_on_flag(&strings(&["--features", "--features"])));
    assert!(ends_on_flag(&strings(&["--features", "--features", "--features"])));
    assert!(!ends_on_flag(&strings(&["--features", "a"])));
    assert!(!ends_on_flag(&strings(&["--features=a"])));
}

#[test]
fn wants_feature_names_eight_subcommands() {
    for command in ["build", "bench", "test", "doc", "install", "run", "rustc", "rustdoc"] {
        assert!(wants_feature(command), "{}", command);
    }
    for command in ["clean", "update", "publish", "", "Build", "tests"] {
        assert!(!wants_feature(command), "{}", command);
    }
}

#[test]
fn bench_is_skipped_off_nightly() {
    assert_eq!(run("stable", false, "bench", &strings(&[]), None), None);
    assert_eq!(run("beta", true, "bench", &strings(&["--features", "a"]), None), None);
}

#[test]
fn bench_runs_on_nightly() {
    assert_eq!(
        run("nightly", false, "bench", &strings(&[]), None),
        Some(strings(&["bench", "--features", "unstable", "--verbose"]))
    );
}

#[test]
fn verbose_is_appended_by_default() {
    assert_eq!(
        run("stable", false, "build", &strings(&["--release"]), None),
        Some(strings(&["build", "--release", "--verbose"]))
    );
}

#[test]
fn quiet_and_given_verbosity_keep_verbose_away() {
    assert_eq!(
        run("stable", true, "build", &strings(&["--release"]), None),
        Some(strings(&["build", "--release"]))
    );
    assert_eq!(
        run("stable", false, "build", &strings(&["-v"]), None),
        Some(strings(&["build", "-v"]))
    );
    assert_eq!(
        run("stable", false, "build", &strings(&["--verbose", "--release"]), None),
        Some(strings(&["build", "--verbose", "--release"]))
    );
}

#[test]
fn other_subcommands_get_no_feature() {
    assert_eq!(
        run("nightly", false, "clean", &strings(&["-p", "x"]), None),
        Some(strings(&["clean", "-p", "x", "--verbose"]))
    );
}

#[test]
fn test_on_nightly_gets_feature_then_verbose() {
    assert_eq!(
        run("nightly", false, "test", &strings(&["--features=a"]), Some("F")),
        Some(strings(&["test", "--features=a F", "--verbose"]))
    );
    assert_eq!(
        run("nightly", true, "test", &strings(&[]), Some("")),
        Some(strings(&["test"]))
    );
}

#[test]
fn every_token_begins_what_stands_in_its_place() {
    let lists: [&[&str]; 5] = [
        &[],
        &["--release"],
        &["--features", "a", "-p", "x"],
        &["--features=a", "--features", "--features=b", "-v"],
        &["--features", "--features", "--features", "z"],
    ];
    for list in lists {
        for version in ["nightly", "stable"] {
            for feature in [None, Some("F"), Some("")] {
                let mut args = strings(list);
                add_features(&mut args, version, feature);
                assert!(args.len() == list.len() || args.len() == list.len() + 2);
                for (before, after) in list.iter().zip(args.iter()) {
                    assert!(after.starts_with(before), "{:?} {:?}", before, after);
                }
            }
        }
    }
}

#[test]
fn accepts_tells_when_the_step_applies() {
    assert!(accepts(&strings(&["--features"]), "stable", None));
    assert!(accepts(&strings(&["--features"]), "nightly", Some("")));
    assert!(!accepts(&strings(&["--features"]), "nightly", None));
    assert!(!accepts(&strings(&["-p", "x", "--features"]), "nightly", Some("F")));
    assert!(accepts(&strings(&["--features", "a"]), "nightly", None));
    assert!(accepts(&strings(&[]), "nightly", None));
}
