//! The arguments of a cargo command: which subcommands take `--features`,
//! how the feature of a nightly toolchain is worked into a list of arguments,
//! and what the whole command line is.

use crate::text::{contains, copy_all, join, same, slice_text, starts_with, texts};
use vstd::prelude::*;
use vstd::string::*;

verus! {

/// The feature that a nightly toolchain enables where none is named.
pub open spec fn default_feature() -> Seq<char> {
    "unstable"@
}

/// The feature in force: the one named, or the default.
pub open spec fn feature_in_force(nightly_feature: Option<&str>) -> Seq<char> {
    match slice_text(nightly_feature) {
        Some(name) => name,
        None => default_feature(),
    }
}

/// Arguments are touched only on the nightly channel and only for a feature
/// with a name.
pub open spec fn augments(version: Seq<char>, feature: Seq<char>) -> bool {
    version == "nightly"@ && feature.len() > 0
}

/// What is appended to a list of features: a space, then the feature.
pub open spec fn addition(feature: Seq<char>) -> Seq<char> {
    " "@ + feature
}

/// The token begins with `--features=`, so it carries its list of features
/// itself.
pub open spec fn is_inline(token: Seq<char>) -> bool {
    "--features="@.is_prefix_of(token)
}

/// Token `i` is a `--features` flag whose list of features is the next token.
/// A `--features` that is itself the list of the flag before it is no flag.
pub open spec fn opens_value(args: Seq<Seq<char>>, i: int) -> bool
    decreases i,
{
    0 <= i < args.len() && args[i] == "--features"@ && (i == 0 || !opens_value(args, i - 1))
}

/// Token `i` names the features, in one of the two forms.
pub open spec fn marks(args: Seq<Seq<char>>, i: int) -> bool {
    opens_value(args, i) || (0 <= i < args.len() && is_inline(args[i]))
}

/// The list ends on a `--features` flag that has no list after it.
pub open spec fn dangling(args: Seq<Seq<char>>) -> bool {
    opens_value(args, args.len() - 1)
}

/// Some token is `--features` or begins with `--features=`.
pub open spec fn names_features(args: Seq<Seq<char>>) -> bool {
    exists|i: int| 0 <= i < args.len() && (args[i] == "--features"@ || is_inline(#[trigger] args[i]))
}

/// Token `j` with the feature worked in: a space and the feature are
/// appended where the token is the list of the flag before it, and appended
/// once more where the token itself begins with `--features=`.
pub open spec fn extended(args: Seq<Seq<char>>, feature: Seq<char>, j: int) -> Seq<char> {
    args[j] + (if opens_value(args, j - 1) {
        addition(feature)
    } else {
        Seq::empty()
    }) + (if is_inline(args[j]) {
        addition(feature)
    } else {
        Seq::empty()
    })
}

/// Token `j` once the first `i` tokens have been dealt with: what comes from
/// the flag before it is appended once that flag has been dealt with, and
/// what comes from the token itself once the token has been.
spec fn token_after(args: Seq<Seq<char>>, feature: Seq<char>, i: int, j: int) -> Seq<char> {
    args[j] + (if j <= i && opens_value(args, j - 1) {
        addition(feature)
    } else {
        Seq::empty()
    }) + (if j < i && is_inline(args[j]) {
        addition(feature)
    } else {
        Seq::empty()
    })
}

/// The arguments with the feature worked in: every list of features that the
/// arguments hold is extended, each token keeps its place, and where they hold
/// none a `--features` flag and the feature are appended.
pub open spec fn with_features(args: Seq<Seq<char>>, feature: Seq<char>) -> Seq<Seq<char>> {
    if names_features(args) {
        Seq::new(args.len(), |j: int| extended(args, feature, j))
    } else {
        args + seq!["--features"@, feature]
    }
}

/// The arguments as [`add_features`] leaves them.
pub open spec fn augmented(args: Seq<Seq<char>>, version: Seq<char>, feature: Seq<char>) -> Seq<
    Seq<char>,
> {
    if augments(version, feature) {
        with_features(args, feature)
    } else {
        args
    }
}

/// The subcommands that take `--features`.
pub open spec fn takes_features(command: Seq<char>) -> bool {
    command == "build"@ || command == "bench"@ || command == "test"@ || command == "doc"@
        || command == "install"@ || command == "run"@ || command == "rustc"@ || command
        == "rustdoc"@
}

/// The command line that [`run`] hands to cargo: none for `bench` off the
/// nightly channel; else the subcommand, then the arguments, with the feature
/// worked in where the subcommand takes one and `--verbose` appended unless
/// the caller asked for quiet or for verbosity already.
pub open spec fn command_line(
    version: Seq<char>,
    quiet: bool,
    command: Seq<char>,
    args: Seq<Seq<char>>,
    feature: Seq<char>,
) -> Option<Seq<Seq<char>>> {
    if command == "bench"@ && version != "nightly"@ {
        None
    } else {
        let featured = if takes_features(command) {
            augmented(args, version, feature)
        } else {
            args
        };
        let finished = if !quiet && !featured.contains("--verbose"@) && !args.contains("-v"@) {
            featured.push("--verbose"@)
        } else {
            featured
        };
        Some(seq![command] + finished)
    }
}

/// The texts of a command line that may be missing.
pub open spec fn line_texts(line: Option<Vec<String>>) -> Option<Seq<Seq<char>>> {
    match line {
        Some(words) => Some(texts(words@)),
        None => None,
    }
}

/// No text that ends in an addition is `--features`, and an addition does not
/// change whether a token is inline.
proof fn lemma_addition_keeps_kind(token: Seq<char>, feature: Seq<char>)
    ensures
        token + addition(feature) != "--features"@,
        is_inline(token + addition(feature)) == is_inline(token),
        !is_inline("--features"@),
{
    reveal_strlit("--features");
    reveal_strlit("--features=");
    reveal_strlit(" ");
    let grown = token + addition(feature);
    let flag = "--features"@;
    let inline = "--features="@;
    let at = token.len() as int;
    assert(grown[at] == ' ');
    assert(forall|k: int| 0 <= k < 10 ==> flag[k] != ' ');
    assert(forall|k: int| 0 <= k < 11 ==> inline[k] != ' ');
    if is_inline(grown) {
        if at < 11 {
            assert(grown.subrange(0, 11)[at] == ' ');
        }
        assert(inline =~= token.subrange(0, 11));
    }
    if is_inline(token) {
        assert(inline =~= grown.subrange(0, 11));
    }
}

/// A list names the features exactly if one of its tokens marks them.
pub proof fn lemma_names_iff_marks(args: Seq<Seq<char>>)
    ensures
        names_features(args) <==> exists|i: int| 0 <= i < args.len() && marks(args, i),
{
    if names_features(args) {
        let i = choose|i: int|
            0 <= i < args.len() && (args[i] == "--features"@ || is_inline(#[trigger] args[i]));
        if !marks(args, i) {
            assert(marks(args, i - 1));
        }
    }
    if exists|i: int| 0 <= i < args.len() && marks(args, i) {
        let i = choose|i: int| 0 <= i < args.len() && marks(args, i);
        assert(args[i] == "--features"@ || is_inline(args[i]));
    }
}

/// On the nightly channel, arguments that name no features get exactly one
/// `--features` flag with the feature after it, at their end. On the stable
/// and beta channels, as on every channel but nightly, nothing changes,
/// whatever the feature.
pub proof fn law_adds_one_pair(args: Seq<Seq<char>>, version: Seq<char>, feature: Seq<char>)
    ensures
        version == "nightly"@ && feature.len() > 0 && !names_features(args) ==> augmented(
            args,
            version,
            feature,
        ) == args + seq!["--features"@, feature],
        version != "nightly"@ ==> augmented(args, version, feature) == args,
        "stable"@ != "nightly"@,
        "beta"@ != "nightly"@,
{
    reveal_strlit("nightly");
    reveal_strlit("stable");
    reveal_strlit("beta");
    assert("stable"@.len() != "nightly"@.len());
    assert("beta"@.len() != "nightly"@.len());
}

/// On the nightly channel, a token that begins with `--features=` has a
/// space and the feature appended, once, and no token is added to the list.
/// This is said of a token that is not itself the list of a `--features`
/// flag before it.
pub proof fn law_extends_inline(args: Seq<Seq<char>>, feature: Seq<char>, i: int)
    requires
        0 <= i < args.len(),
        is_inline(args[i]),
        !opens_value(args, i - 1),
        feature.len() > 0,
    ensures
        augmented(args, "nightly"@, feature).len() == args.len(),
        augmented(args, "nightly"@, feature)[i] == args[i] + " "@ + feature,
{
    assert(names_features(args));
    assert(extended(args, feature, i) =~= args[i] + " "@ + feature);
}

/// Working the feature in moves no token and shortens none: every token of
/// the arguments begins the token that stands in its place afterwards, and
/// what is new stands after all of them. Arguments that name the features
/// keep their length; the others grow by two tokens.
pub proof fn law_tokens_keep_their_place(
    args: Seq<Seq<char>>,
    version: Seq<char>,
    feature: Seq<char>,
)
    ensures
        augmented(args, version, feature).len() == (if augments(version, feature)
            && !names_features(args) {
            args.len() + 2
        } else {
            args.len()
        }),
        forall|j: int|
            0 <= j < args.len() ==> (#[trigger] args[j]).is_prefix_of(
                augmented(args, version, feature)[j],
            ),
{
    assert forall|j: int| 0 <= j < args.len() implies (#[trigger] args[j]).is_prefix_of(
        augmented(args, version, feature)[j],
    ) by {
        let token = augmented(args, version, feature)[j];
        assert(args[j] =~= token.subrange(0, args[j].len() as int));
    }
}

/// What the list of a `--features` flag becomes: a space and the feature are
/// appended, and once more where the list is itself a token that begins with
/// `--features=`.
pub open spec fn extended_list(list: Seq<char>, feature: Seq<char>) -> Seq<char> {
    list + " "@ + feature + (if is_inline(list) {
        " "@ + feature
    } else {
        Seq::empty()
    })
}

/// On the nightly channel, every `--features` flag has its list extended:
/// where two of them stand in one list of arguments, the token after each is
/// extended, and no token is added to the list. This is said of flags, not of
/// a `--features` that is the list of a flag before it.
pub proof fn law_extends_every_flag(args: Seq<Seq<char>>, feature: Seq<char>, i: int, j: int)
    requires
        opens_value(args, i),
        opens_value(args, j),
        i < j,
        j + 1 < args.len(),
        feature.len() > 0,
    ensures
        augmented(args, "nightly"@, feature).len() == args.len(),
        augmented(args, "nightly"@, feature)[i + 1] == extended_list(args[i + 1], feature),
        augmented(args, "nightly"@, feature)[j + 1] == extended_list(args[j + 1], feature),
{
    assert(args[i] == "--features"@);
    assert(names_features(args));
    assert(extended(args, feature, i + 1) =~= extended_list(args[i + 1], feature));
    assert(extended(args, feature, j + 1) =~= extended_list(args[j + 1], feature));
}

/// Working the feature in twice appends it twice: arguments that name no
/// features get the flag and the feature from the first pass, and from the
/// second pass the feature once more, after a space.
pub proof fn law_second_pass_appends_again(args: Seq<Seq<char>>, feature: Seq<char>)
    requires
        !names_features(args),
        feature.len() > 0,
    ensures
        augmented(augmented(args, "nightly"@, feature), "nightly"@, feature) == args + seq![
            "--features"@,
            extended_list(feature, feature),
        ],
{
    let n = args.len() as int;
    let once = args + seq!["--features"@, feature];
    let twice = augmented(once, "nightly"@, feature);
    lemma_addition_keeps_kind(feature, feature);
    assert(once[n] == "--features"@);
    assert(names_features(once));
    assert forall|j: int| 0 <= j < n implies !opens_value(once, j) && !is_inline(once[j]) by {
        assert(once[j] == args[j]);
    }
    if n > 0 {
        assert(!opens_value(once, n - 1));
    }
    assert(opens_value(once, n));
    assert(!opens_value(once, n + 1));
    assert forall|j: int| 0 <= j < n + 2 implies twice[j] == (args + seq![
        "--features"@,
        extended_list(feature, feature),
    ])[j] by {
        assert(twice[j] == extended(once, feature, j));
        if j < n {
            assert(extended(once, feature, j) =~= args[j]);
        } else if j == n {
            assert(extended(once, feature, j) =~= "--features"@);
        } else {
            assert(once[j] == feature);
            assert(extended(once, feature, j) =~= extended_list(feature, feature));
        }
    }
    assert(twice =~= args + seq!["--features"@, extended_list(feature, feature)]);
}

/// Whether the list ends on a `--features` flag that has no list after it.
pub fn ends_on_flag(args: &[String]) -> (b: bool)
    ensures
        b == dangling(texts(args@)),
{
    let n: usize = args.len();
    let mut open: bool = false;
    let mut i: usize = 0;
    while i < n
        invariant
            n == args@.len(),
            i <= n,
            open == opens_value(texts(args@), i - 1),
        decreases n - i,
    {
        open = !open && same(args[i].as_str(), "--features");
        i += 1;
    }
    open
}

/// Whether [`add_features`] takes these arguments on this channel and for
/// this feature: it does unless it would have to extend the list of a
/// `--features` flag that ends the arguments.
pub fn accepts(args: &[String], version: &str, nightly_feature: Option<&str>) -> (b: bool)
    ensures
        b == (augments(version@, feature_in_force(nightly_feature)) ==> !dangling(texts(args@))),
{
    let feature: &str = match nightly_feature {
        Some(name) => name,
        None => "unstable",
    };
    !same(version, "nightly") || feature.is_empty() || !ends_on_flag(args)
}

/// Whether `command` is one of the subcommands that take `--features`.
pub fn wants_feature(command: &str) -> (b: bool)
    ensures
        b == takes_features(command@),
{
    same(command, "build") || same(command, "bench") || same(command, "test") || same(
        command,
        "doc",
    ) || same(command, "install") || same(command, "run") || same(command, "rustc") || same(
        command,
        "rustdoc",
    )
}

/// Works the feature of a nightly toolchain into the arguments of a cargo
/// command. `nightly_feature` names the feature; without a name it is
/// `unstable`, and an empty name switches the whole step off.
///
/// A list that ends on a `--features` flag has no place for the feature and is
/// not accepted where the step is in force.
pub fn add_features(cargo_args: &mut Vec<String>, version: &str, nightly_feature: Option<&str>)
    requires
        augments(version@, feature_in_force(nightly_feature)) ==> !dangling(
            texts(old(cargo_args)@),
        ),
    ensures
        texts(final(cargo_args)@) == augmented(
            texts(old(cargo_args)@),
            version@,
            feature_in_force(nightly_feature),
        ),
{
    let feature: &str = match nightly_feature {
        Some(name) => name,
        None => "unstable",
    };
    if !same(version, "nightly") || feature.is_empty() {
        return ;
    }
    let ghost before = texts(cargo_args@);
    let ghost f = feature@;
    let flag: String = "--features".to_owned();
    let more: String = join(" ", feature);
    let n: usize = cargo_args.len();
    let mut added: bool = false;
    let mut i: usize = 0;
    proof {
        assert forall|j: int| 0 <= j < n implies cargo_args@[j]@ == token_after(before, f, 0, j) by {
            assert(before[j] =~= token_after(before, f, 0, j));
        }
    }
    while i < n
        invariant
            n == before.len(),
            cargo_args@.len() == n,
            i <= n,
            flag@ == "--features"@,
            more@ == addition(f),
            !dangling(before),
            forall|j: int| 0 <= j < n ==> cargo_args@[j]@ == token_after(before, f, i as int, j),
            added == exists|j: int| 0 <= j < i && marks(before, j),
        decreases n - i,
    {
        let ghost at = i as int;
        let ghost current = texts(cargo_args@);
        proof {
            lemma_addition_keeps_kind(before[at], f);
            assert(current[at] == token_after(before, f, at, at));
            if opens_value(before, at - 1) {
                assert(current[at] =~= before[at] + addition(f));
            } else {
                assert(current[at] =~= before[at]);
            }
            assert((current[at] == "--features"@) == opens_value(before, at));
            assert(is_inline(current[at]) == is_inline(before[at]));
        }
        if cargo_args[i] == flag {
            cargo_args[i + 1].append(more.as_str());
            added = true;
            proof {
                assert(marks(before, at));
                assert forall|j: int| 0 <= j < n implies cargo_args@[j]@ == token_after(
                    before,
                    f,
                    at + 1,
                    j,
                ) by {
                    assert(current[j] == token_after(before, f, at, j));
                    if j == at + 1 {
                        assert(cargo_args@[j]@ =~= token_after(before, f, at + 1, j));
                    } else {
                        assert(cargo_args@[j]@ == current[j]);
                        assert(token_after(before, f, at, j) =~= token_after(before, f, at + 1, j));
                    }
                }
            }
        } else if starts_with(cargo_args[i].as_str(), "--features=") {
            cargo_args[i].append(more.as_str());
            added = true;
            proof {
                assert(marks(before, at));
                assert forall|j: int| 0 <= j < n implies cargo_args@[j]@ == token_after(
                    before,
                    f,
                    at + 1,
                    j,
                ) by {
                    assert(current[j] == token_after(before, f, at, j));
                    if j == at {
                        assert(cargo_args@[j]@ =~= token_after(before, f, at + 1, j));
                    } else {
                        assert(cargo_args@[j]@ == current[j]);
                        assert(token_after(before, f, at, j) =~= token_after(before, f, at + 1, j));
                    }
                }
            }
        } else {
            proof {
                assert(!marks(before, at));
                assert forall|j: int| 0 <= j < n implies cargo_args@[j]@ == token_after(
                    before,
                    f,
                    at + 1,
                    j,
                ) by {
                    assert(current[j] == token_after(before, f, at, j));
                    assert(token_after(before, f, at, j) =~= token_after(before, f, at + 1, j));
                }
            }
        }
        i += 1;
    }
    proof {
        lemma_names_iff_marks(before);
    }
    if !added {
        proof {
            assert forall|j: int| 0 <= j < n implies cargo_args@[j]@ == before[j] by {
                assert(!marks(before, j));
                assert(token_after(before, f, n as int, j) =~= before[j]);
            }
        }
        cargo_args.push("--features".to_owned());
        cargo_args.push(feature.to_owned());
        proof {
            assert(texts(cargo_args@) =~= before + seq!["--features"@, f]);
        }
    } else {
        proof {
            assert forall|j: int| 0 <= j < n implies cargo_args@[j]@ == extended(before, f, j) by {
                assert(token_after(before, f, n as int, j) =~= extended(before, f, j));
            }
            assert(texts(cargo_args@) =~= Seq::new(n as nat, |j: int| extended(before, f, j)));
        }
    }
}

/// The command line of `cargo <command> <args>`, or nothing where the command
/// is skipped: `bench` runs on the nightly channel only.
pub fn run(
    version: &str,
    quiet: bool,
    command: &str,
    args: &[String],
    nightly_feature: Option<&str>,
) -> (line: Option<Vec<String>>)
    requires
        takes_features(command@) && augments(version@, feature_in_force(nightly_feature))
            ==> !dangling(texts(args@)),
    ensures
        line_texts(line) == command_line(
            version@,
            quiet,
            command@,
            texts(args@),
            feature_in_force(nightly_feature),
        ),
{
    let mut cargo_args: Vec<String> = copy_all(args);
    let feature: bool = wants_feature(command);
    if same(command, "bench") && !same(version, "nightly") {
        return None;
    }
    if feature {
        add_features(&mut cargo_args, version, nightly_feature);
    }
    let ghost featured = texts(cargo_args@);
    if !quiet && !contains(cargo_args.as_slice(), "--verbose") && !contains(args, "-v") {
        cargo_args.push("--verbose".to_owned());
        proof {
            assert(texts(cargo_args@) =~= featured.push("--verbose"@));
        }
    }
    let ghost finished = texts(cargo_args@);
    let mut words: Vec<String> = Vec::new();
    words.push(command.to_owned());
    words.append(&mut cargo_args);
    proof {
        assert(texts(words@) =~= seq![command@] + finished);
    }
    Some(words)
}

} // verus!
