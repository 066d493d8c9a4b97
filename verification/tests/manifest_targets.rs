use travis_cargo::manifest::underscore;
use travis_cargo::{Manifest, Target};

fn target(name: Option<&str>, kinds: Option<&[&str]>, extra: Option<&str>) -> Target {
    Target {
        name: name.map(|s| s.to_string()),
        kinds: kinds.map(|list| list.iter().map(|kind| Some(kind.to_string())).collect()),
        extra_filename: extra.map(|s| s.to_string()),
    }
}

#[test]
fn dashes_become_underscores() {
    assert_eq!(underscore("travis-cargo"), "travis_cargo");
    assert_eq!(underscore("a-b-c-"), "a_b_c_");
    assert_eq!(underscore("--"), "__");
    assert_eq!(underscore("plain_name"), "plain_name");
    assert_eq!(underscore(""), "");
    assert_eq!(underscore("caf\u{e9}-cr\u{e8}me"), "caf\u{e9}_cr\u{e8}me");
}

#[test]
fn the_output_name_is_name_and_extra() {
    let lib = target(Some("travis-cargo"), Some(&["lib"]), Some("-0a1b2c3d"));
    assert_eq!(lib.binary_name(), Some("travis_cargo-0a1b2c3d".to_string()));
    let bare = target(Some("tool"), Some(&["bin"]), Some(""));
    assert_eq!(bare.binary_name(), Some("tool".to_string()));
}

#[test]
fn no_output_name_without_name_or_extra() {
    assert_eq!(target(None, Some(&["lib"]), Some("-0a")).binary_name(), None);
    assert_eq!(target(Some("x"), Some(&["lib"]), None).binary_name(), None);
    assert_eq!(target(None, None, None).binary_name(), None);
}

#[test]
fn a_copy_is_equal() {
    let given = Target {
        name: Some("a-b".to_string()),
        kinds: Some(vec![Some("lib".to_string()), None, Some("rlib".to_string())]),
        extra_filename: None,
    };
    assert_eq!(given.copy(), given);
}

#[test]
fn targets_come_back_in_order() {
    let list = vec![
        target(Some("a"), Some(&["bin"]), Some("-1")),
        target(Some("b"), Some(&["lib"]), None),
        target(None, None, None),
    ];
    assert_eq!(Manifest::new(Some(list.clone())).targets(), Some(list));
    assert_eq!(Manifest::new(Some(Vec::new())).targets(), Some(Vec::new()));
}

#[test]
fn the_library_is_the_first_target_of_kind_lib() {
    let manifest = Manifest::new(Some(vec![
        target(Some("a-tool"), Some(&["bin"]), None),
        target(Some("my-lib"), Some(&["lib"]), None),
        target(Some("other-lib"), Some(&["lib"]), None),
    ]));
    assert_eq!(manifest.lib_name(), Some("my_lib".to_string()));
}

#[test]
fn lib_may_be_one_kind_among_several() {
    let manifest = Manifest::new(Some(vec![
        target(Some("x-y"), Some(&["rlib", "dylib"]), None),
        target(Some("z-w"), Some(&["staticlib", "lib"]), None),
    ]));
    assert_eq!(manifest.lib_name(), Some("z_w".to_string()));
}

#[test]
fn a_kind_that_is_no_string_is_no_lib() {
    let manifest = Manifest::new(Some(vec![
        Target { name: Some("odd".to_string()), kinds: Some(vec![None]), extra_filename: None },
        Target {
            name: Some("the-lib".to_string()),
            kinds: Some(vec![None, Some("lib".to_string())]),
            extra_filename: None,
        },
    ]));
    assert_eq!(manifest.lib_name(), Some("the_lib".to_string()));
}

#[test]
fn a_project_without_library_has_no_library_name() {
    let manifest = Manifest::new(Some(vec![
        target(Some("a"), Some(&["bin"]), None),
        target(Some("b"), Some(&["test"]), None),
        target(None, Some(&[]), None),
    ]));
    assert_eq!(manifest.lib_name(), None);
    assert_eq!(Manifest::new(Some(Vec::new())).lib_name(), None);
}

#[test]
fn targets_after_the_library_are_not_looked_at() {
    let manifest = Manifest::new(Some(vec![
        target(Some("the-lib"), Some(&["lib"]), None),
        target(None, None, None),
    ]));
    assert_eq!(manifest.lib_name(), Some("the_lib".to_string()));
}

#[test]
fn a_manifest_says_whether_it_can_be_asked() {
    assert!(!Manifest::new(None).has_targets());
    assert!(!Manifest::new(None).is_readable());
    assert!(Manifest::new(Some(Vec::new())).has_targets());
    assert!(Manifest::new(Some(Vec::new())).is_readable());
    let kinds_missing = Manifest::new(Some(vec![
        target(Some("a"), Some(&["bin"]), None),
        target(Some("b"), None, None),
        target(Some("c"), Some(&["lib"]), None),
    ]));
    assert!(!kinds_missing.is_readable());
    let name_missing = Manifest::new(Some(vec![target(None, Some(&["lib"]), None)]));
    assert!(!name_missing.is_readable());
    let odd_after_lib = Manifest::new(Some(vec![
        target(None, Some(&["bin"]), None),
        target(Some("c"), Some(&["lib"]), None),
        target(None, None, None),
        target(None, Some(&["lib"]), None),
    ]));
    assert!(odd_after_lib.is_readable());
    assert_eq!(odd_after_lib.lib_name(), Some("c".to_string()));
}
