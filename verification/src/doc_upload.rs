//! Uploading the rendered documentation: whether this build uploads at all,
//! the page that leads to the documentation of the library, and the commands
//! that publish it.

use crate::command::{invocations, plain, Invocation, InvocationView};
use crate::manifest::{lib_is_readable, library_name, Manifest};
use crate::text::{join, same, slice_text, texts};
use crate::utils::{Stdout, StdoutView};
use vstd::prelude::*;
use vstd::string::*;

verus! {

/// Why an upload that is due cannot be made.
#[derive(Debug, Clone, Copy, PartialEq, Eq, Structural)]
pub enum UploadError {
    /// The project has no library to lead to.
    NoLibrary,
    /// There is no token to push with.
    MissingToken,
}

/// What an upload consists of.
#[derive(Debug, Clone, PartialEq, Eq)]
pub struct Upload {
    /// What is written to `target/doc/index.html` before any command runs.
    pub index_page: String,
    /// The commands to run, in order; the first that fails ends the upload.
    pub commands: Vec<Invocation>,
}

/// The model of an [`Upload`].
pub struct UploadView {
    pub index_page: Seq<char>,
    pub commands: Seq<InvocationView>,
}

impl View for Upload {
    type V = UploadView;

    open spec fn view(&self) -> UploadView {
        UploadView { index_page: self.index_page@, commands: invocations(self.commands@) }
    }
}

/// Whether the build is one for a pull request: it is where the first
/// variable is set at all; else the second says so, as `true` or `false`.
/// Nothing is known where the second is needed and is neither.
pub open spec fn pull_request_of(number: Option<Seq<char>>, flag: Option<Seq<char>>) -> Option<bool> {
    if number is Some {
        Some(true)
    } else if flag == Some("true"@) {
        Some(true)
    } else if flag == Some("false"@) {
        Some(false)
    } else {
        None
    }
}

/// The branch that uploads: the one asked for, or `master`.
pub open spec fn upload_branch(wanted: Option<Seq<char>>) -> Seq<char> {
    match wanted {
        Some(branch) => branch,
        None => "master"@,
    }
}

/// Documentation is uploaded from the branch that uploads, and never for a
/// pull request.
pub open spec fn uploads(branch: Seq<char>, wanted: Option<Seq<char>>, pull_request: bool) -> bool {
    branch == upload_branch(wanted) && !pull_request
}

/// The page that sends a reader on to the documentation of the library.
pub open spec fn index_page(lib_name: Seq<char>) -> Seq<char> {
    "<meta http-equiv=refresh content=0;url="@ + lib_name + "/index.html>\n"@
}

/// The address to push to, with the token in it.
pub open spec fn repo_url(token: Seq<char>, repo: Seq<char>) -> Seq<char> {
    "https://"@ + token + "@github.com/"@ + repo + ".git"@
}

/// The commands of an upload: fetch the import tool, import the rendered
/// documentation into the pages branch, and push that branch. The push holds
/// the token, so its output is printed masked.
pub open spec fn upload_commands(token: Seq<char>, repo: Seq<char>) -> Seq<InvocationView> {
    seq![
        plain("git"@, seq!["clone"@, "https://github.com/davisp/ghp-import"@]),
        plain("python"@, seq!["./ghp-import/ghp_import.py"@, "-n"@, "target/doc"@]),
        InvocationView {
            stdout: StdoutView::Redact(token),
            ..plain("git"@, seq!["push"@, "-fq"@, repo_url(token, repo), "gh-pages"@])
        },
    ]
}

/// What [`doc_upload`] decides: for a project without a library, an error;
/// where this build does not upload, nothing; where it does, an error
/// without a token, and the upload with one.
pub open spec fn upload_plan(
    lib_name: Option<Seq<char>>,
    branch: Seq<char>,
    repo: Seq<char>,
    pull_request: bool,
    wanted: Option<Seq<char>>,
    token: Option<Seq<char>>,
) -> Result<Option<UploadView>, UploadError> {
    match lib_name {
        None => Err(UploadError::NoLibrary),
        Some(name) => if !uploads(branch, wanted, pull_request) {
            Ok(None)
        } else {
            match token {
                None => Err(UploadError::MissingToken),
                Some(secret) => Ok(
                    Some(
                        UploadView {
                            index_page: index_page(name),
                            commands: upload_commands(secret, repo),
                        },
                    ),
                ),
            }
        },
    }
}

/// The model of what [`doc_upload`] returns.
pub open spec fn plan_view(plan: Result<Option<Upload>, UploadError>) -> Result<
    Option<UploadView>,
    UploadError,
> {
    match plan {
        Ok(Some(upload)) => Ok(Some(upload@)),
        Ok(None) => Ok(None),
        Err(error) => Err(error),
    }
}

/// Whether the build is one for a pull request, from the two variables that
/// say so.
pub fn pull_request(number: Option<&str>, flag: Option<&str>) -> (answer: Option<bool>)
    ensures
        answer == pull_request_of(slice_text(number), slice_text(flag)),
{
    if number.is_some() {
        return Some(true);
    }
    match flag {
        Some(word) => {
            if same(word, "true") {
                Some(true)
            } else if same(word, "false") {
                Some(false)
            } else {
                None
            }
        },
        None => None,
    }
}

/// The commands of an upload to `repo` with `token`.
pub fn commands(token: &str, repo: &str) -> (list: Vec<Invocation>)
    ensures
        invocations(list@) == upload_commands(token@, repo@),
{
    let mut clone: Vec<String> = Vec::new();
    clone.push("clone".to_owned());
    clone.push("https://github.com/davisp/ghp-import".to_owned());
    let mut import: Vec<String> = Vec::new();
    import.push("./ghp-import/ghp_import.py".to_owned());
    import.push("-n".to_owned());
    import.push("target/doc".to_owned());
    let url: String = join("https://", token).concat("@github.com/").concat(repo).concat(".git");
    let mut push: Vec<String> = Vec::new();
    push.push("push".to_owned());
    push.push("-fq".to_owned());
    push.push(url);
    push.push("gh-pages".to_owned());
    proof {
        assert(texts(clone@) =~= seq!["clone"@, "https://github.com/davisp/ghp-import"@]);
        assert(texts(import@) =~= seq!["./ghp-import/ghp_import.py"@, "-n"@, "target/doc"@]);
        assert(texts(push@) =~= seq!["push"@, "-fq"@, repo_url(token@, repo@), "gh-pages"@]);
    }
    let mut last = Invocation::new("git", push);
    last.stdout = Stdout::Redact(token.to_owned());
    let mut list: Vec<Invocation> = Vec::new();
    list.push(Invocation::new("git", clone));
    list.push(Invocation::new("python", import));
    list.push(last);
    proof {
        assert(invocations(list@) =~= upload_commands(token@, repo@));
    }
    list
}

/// Decides whether the documentation of the project is uploaded from this
/// build, and says what the upload consists of. `branch` and `repo` are the
/// branch and the repository of the build, `wanted_branch` the branch that
/// the caller wants documentation uploaded from, and `token` what to push
/// with.
pub fn doc_upload(
    manifest: &Manifest,
    branch: &str,
    repo: &str,
    pull_request: bool,
    wanted_branch: Option<&str>,
    token: Option<&str>,
) -> (plan: Result<Option<Upload>, UploadError>)
    requires
        manifest@ is Some,
        lib_is_readable(manifest@->0),
    ensures
        plan_view(plan) == upload_plan(
            library_name(manifest@->0),
            branch@,
            repo@,
            pull_request,
            slice_text(wanted_branch),
            slice_text(token),
        ),
{
    let lib_name: String = match manifest.lib_name() {
        Some(name) => name,
        None => {
            return Err(UploadError::NoLibrary);
        },
    };
    let wanted: &str = match wanted_branch {
        Some(wanted) => wanted,
        None => "master",
    };
    if !same(branch, wanted) || pull_request {
        return Ok(None);
    }
    let secret: &str = match token {
        Some(secret) => secret,
        None => {
            return Err(UploadError::MissingToken);
        },
    };
    let page: String = join("<meta http-equiv=refresh content=0;url=", lib_name.as_str()).concat(
        "/index.html>\n",
    );
    Ok(Some(Upload { index_page: page, commands: commands(secret, repo) }))
}

} // verus!
