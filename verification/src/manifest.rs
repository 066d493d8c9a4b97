//! What a project's manifest says of its targets, as far as this library
//! reads it: the name of each target, its kinds, and what cargo adds to the
//! file name of its output.

use crate::scan::group_texts;
use crate::text::{copy_text, same, text_of};
use vstd::prelude::*;
use vstd::string::*;

verus! {

/// One target of a project. A part is missing where the manifest does not
/// hold it, or holds it in another shape than expected.
#[derive(Debug, Clone, PartialEq, Eq)]
pub struct Target {
    /// The name, where the manifest holds one as a string.
    pub name: Option<String>,
    /// The kinds, where the manifest holds a list of them; a kind that is no
    /// string is missing from its place.
    pub kinds: Option<Vec<Option<String>>>,
    /// What is added to the file name, where the manifest holds it as a
    /// string.
    pub extra_filename: Option<String>,
}

/// The model of a [`Target`].
pub struct TargetView {
    pub name: Option<Seq<char>>,
    pub kinds: Option<Seq<Option<Seq<char>>>>,
    pub extra_filename: Option<Seq<char>>,
}

impl View for Target {
    type V = TargetView;

    open spec fn view(&self) -> TargetView {
        TargetView {
            name: text_of(self.name),
            kinds: match self.kinds {
                Some(kinds) => Some(group_texts(kinds@)),
                None => None,
            },
            extra_filename: text_of(self.extra_filename),
        }
    }
}

/// The models of a list of targets, in order.
pub open spec fn target_views(targets: Seq<Target>) -> Seq<TargetView> {
    Seq::new(targets.len(), |i: int| targets[i]@)
}

/// The models of a list of targets that may be missing.
pub open spec fn listed(targets: Option<Vec<Target>>) -> Option<Seq<TargetView>> {
    match targets {
        Some(list) => Some(target_views(list@)),
        None => None,
    }
}

/// The manifest of a project: its targets in the order of the manifest, or
/// nothing where the manifest holds no list of targets.
#[derive(Debug, Clone, PartialEq, Eq)]
pub struct Manifest {
    targets: Option<Vec<Target>>,
}

impl View for Manifest {
    type V = Option<Seq<TargetView>>;

    closed spec fn view(&self) -> Option<Seq<TargetView>> {
        listed(self.targets)
    }
}

/// The name with every `-` replaced by `_`, as it appears in file names.
pub open spec fn underscored(name: Seq<char>) -> Seq<char> {
    Seq::new(name.len(), |i: int| if name[i] == '-' {
        '_'
    } else {
        name[i]
    })
}

/// One of the kinds of the target is `lib`.
pub open spec fn is_lib(target: TargetView) -> bool {
    target.kinds matches Some(kinds) && kinds.contains(Some("lib"@))
}

/// Target `i` is looked at when the library of the project is searched for:
/// no target before it is a library.
pub open spec fn is_reached(targets: Seq<TargetView>, i: int) -> bool {
    0 <= i < targets.len() && forall|j: int| 0 <= j < i ==> !is_lib(#[trigger] targets[j])
}

/// The search for the library can read all it looks at: every target that
/// is reached has a list of kinds, and a library that is reached has a name.
pub open spec fn lib_is_readable(targets: Seq<TargetView>) -> bool {
    forall|i: int| #[trigger]
        is_reached(targets, i) ==> targets[i].kinds is Some && (is_lib(targets[i])
            ==> targets[i].name is Some)
}

/// The name of a target, underscored, where it has one.
pub open spec fn underscored_name(target: TargetView) -> Option<Seq<char>> {
    match target.name {
        Some(name) => Some(underscored(name)),
        None => None,
    }
}

/// The name of the library among the targets: the name, underscored, of the
/// first target that is a library, and nothing where no target is one.
pub open spec fn library_name(targets: Seq<TargetView>) -> Option<Seq<char>>
    decreases targets.len(),
{
    if targets.len() == 0 {
        None
    } else if is_lib(targets[0]) {
        underscored_name(targets[0])
    } else {
        library_name(targets.drop_first())
    }
}

/// The name of the output of a target: its name, underscored, and what is
/// added to the file name; nothing where either is missing.
pub open spec fn output_name(target: TargetView) -> Option<Seq<char>> {
    match (target.name, target.extra_filename) {
        (Some(name), Some(extra)) => Some(underscored(name) + extra),
        _ => None,
    }
}

/// The name of the library is that of the first target that is one.
pub proof fn lemma_library_is_first_lib(targets: Seq<TargetView>, i: int)
    requires
        is_reached(targets, i),
    ensures
        is_lib(targets[i]) ==> library_name(targets) == underscored_name(targets[i]),
        !is_lib(targets[i]) && i + 1 == targets.len() ==> library_name(targets) is None,
    decreases i,
{
    if i > 0 {
        let rest = targets.drop_first();
        assert(!is_lib(targets[0]));
        assert forall|j: int| 0 <= j < i - 1 implies !is_lib(#[trigger] rest[j]) by {
            assert(rest[j] == targets[j + 1]);
        }
        lemma_library_is_first_lib(rest, i - 1);
    } else if !is_lib(targets[0]) && targets.len() == 1 {
        assert(library_name(targets.drop_first()) is None);
    }
}

/// The name with every `-` replaced by `_`.
pub fn underscore(name: &str) -> (out: String)
    ensures
        out@ == underscored(name@),
{
    let n: usize = name.unicode_len();
    let mut out = String::new();
    let mut i: usize = 0;
    while i < n
        invariant
            n == name@.len(),
            i <= n,
            out@ == underscored(name@).take(i as int),
        decreases n - i,
    {
        if name.get_char(i) == '-' {
            out.append("_");
            proof {
                reveal_strlit("_");
                assert(out@ =~= underscored(name@).take(i + 1));
            }
        } else {
            out.append(name.substring_char(i, i + 1));
            proof {
                assert(out@ =~= underscored(name@).take(i + 1));
            }
        }
        i += 1;
    }
    proof {
        assert(underscored(name@).take(n as int) =~= underscored(name@));
    }
    out
}

/// Whether one of the kinds is `lib`.
fn has_lib(kinds: &Vec<Option<String>>) -> (b: bool)
    ensures
        b == group_texts(kinds@).contains(Some("lib"@)),
{
    let n: usize = kinds.len();
    let mut k: usize = 0;
    while k < n
        invariant
            n == kinds@.len(),
            k <= n,
            forall|j: int| 0 <= j < k ==> group_texts(kinds@)[j] != Some("lib"@),
        decreases n - k,
    {
        match &kinds[k] {
            Some(kind) => {
                if same(kind.as_str(), "lib") {
                    proof {
                        assert(group_texts(kinds@)[k as int] == Some("lib"@));
                    }
                    return true;
                }
            },
            None => {},
        }
        k += 1;
    }
    false
}

impl Target {
    /// The name of the output of the target.
    pub fn binary_name(&self) -> (name: Option<String>)
        ensures
            text_of(name) == output_name(self@),
    {
        match (&self.name, &self.extra_filename) {
            (Some(name), Some(extra)) => Some(underscore(name.as_str()).concat(extra.as_str())),
            _ => None,
        }
    }

    /// A copy of the target.
    pub fn copy(&self) -> (out: Target)
        ensures
            out@ == self@,
    {
        let kinds: Option<Vec<Option<String>>> = match &self.kinds {
            Some(given) => {
                let n: usize = given.len();
                let mut list: Vec<Option<String>> = Vec::new();
                let mut k: usize = 0;
                while k < n
                    invariant
                        n == given@.len(),
                        k <= n,
                        list@.len() == k,
                        forall|j: int| 0 <= j < k ==> text_of(list@[j]) == text_of(given@[j]),
                    decreases n - k,
                {
                    list.push(copy_text(&given[k]));
                    k += 1;
                }
                proof {
                    assert(group_texts(list@) =~= group_texts(given@));
                }
                Some(list)
            },
            None => None,
        };
        Target {
            name: copy_text(&self.name),
            kinds,
            extra_filename: copy_text(&self.extra_filename),
        }
    }
}

impl Manifest {
    /// The manifest with the given targets; with none where the manifest
    /// holds no list of targets.
    pub fn new(targets: Option<Vec<Target>>) -> (manifest: Manifest)
        ensures
            manifest@ == listed(targets),
    {
        Manifest { targets }
    }

    /// The targets of the project, in the order of the manifest. A manifest
    /// without a list of targets cannot be asked.
    pub fn targets(&self) -> (targets: Option<Vec<Target>>)
        requires
            self@ is Some,
        ensures
            listed(targets) == self@,
    {
        match &self.targets {
            Some(given) => {
                let n: usize = given.len();
                let mut list: Vec<Target> = Vec::new();
                let mut i: usize = 0;
                while i < n
                    invariant
                        n == given@.len(),
                        i <= n,
                        list@.len() == i,
                        forall|j: int| 0 <= j < i ==> list@[j]@ == given@[j]@,
                    decreases n - i,
                {
                    list.push(given[i].copy());
                    i += 1;
                }
                proof {
                    assert(target_views(list@) =~= target_views(given@));
                }
                Some(list)
            },
            None => None,
        }
    }

    /// Whether the manifest holds a list of targets.
    pub fn has_targets(&self) -> (b: bool)
        ensures
            b == self@ is Some,
    {
        self.targets.is_some()
    }

    /// Whether [`Manifest::lib_name`] can be asked: the manifest holds a
    /// list of targets, and the search for the library can read all it
    /// looks at.
    pub fn is_readable(&self) -> (b: bool)
        ensures
            b == (self@ is Some && lib_is_readable(self@->0)),
    {
        match &self.targets {
            Some(targets) => {
                let ghost all = target_views(targets@);
                let n: usize = targets.len();
                let mut i: usize = 0;
                while i < n
                    invariant
                        self@ == Some(all),
                        all == target_views(targets@),
                        n == targets@.len(),
                        i <= n,
                        forall|j: int|
                            0 <= j < i ==> !is_lib(#[trigger] all[j]) && all[j].kinds is Some,
                    decreases n - i,
                {
                    proof {
                        assert(is_reached(all, i as int));
                        assert(all[i as int] == targets@[i as int]@);
                    }
                    match &targets[i].kinds {
                        Some(kinds) => {
                            if has_lib(kinds) {
                                let named = targets[i].name.is_some();
                                proof {
                                    if named {
                                        assert forall|k: int| #[trigger]
                                            is_reached(all, k) implies all[k].kinds is Some && (
                                        is_lib(all[k]) ==> all[k].name is Some) by {
                                            if k > i {
                                                assert(!is_lib(all[i as int]));
                                            }
                                        }
                                    }
                                }
                                return named;
                            }
                        },
                        None => {
                            return false;
                        },
                    }
                    i += 1;
                }
                true
            },
            None => false,
        }
    }

    /// The name of the library of the project, underscored: that of the
    /// first target of which one kind is `lib`, and nothing where no target
    /// is a library. A manifest in which the search would come upon a target
    /// without kinds, or upon a library without a name, cannot be asked.
    pub fn lib_name(&self) -> (name: Option<String>)
        requires
            self@ is Some,
            lib_is_readable(self@->0),
        ensures
            text_of(name) == library_name(self@->0),
    {
        match &self.targets {
            Some(targets) => {
                let ghost all = target_views(targets@);
                let n: usize = targets.len();
                let mut i: usize = 0;
                while i < n
                    invariant
                        self@ == Some(all),
                        all == target_views(targets@),
                        n == targets@.len(),
                        i <= n,
                        lib_is_readable(all),
                        forall|j: int| 0 <= j < i ==> !is_lib(#[trigger] all[j]),
                    decreases n - i,
                {
                    proof {
                        assert(is_reached(all, i as int));
                        assert(all[i as int] == targets@[i as int]@);
                        lemma_library_is_first_lib(all, i as int);
                    }
                    match &targets[i].kinds {
                        Some(kinds) => {
                            if has_lib(kinds) {
                                match &targets[i].name {
                                    Some(name) => {
                                        return Some(underscore(name.as_str()));
                                    },
                                    None => {},
                                }
                            }
                        },
                        None => {},
                    }
                    i += 1;
                }
                proof {
                    if n > 0 {
                        assert(is_reached(all, n - 1));
                        lemma_library_is_first_lib(all, n - 1);
                    }
                }
                None
            },
            None => None,
        }
    }
}

} // verus!
