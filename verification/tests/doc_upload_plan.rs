use travis_cargo::command::Invocation;
use travis_cargo::doc_upload::{commands, doc_upload, pull_request, Upload, UploadError};
use travis_cargo::utils::Stdout;
use travis_cargo::{Manifest, Target};

fn strings(words: &[&str]) -> Vec<String> {
    words.iter().map(|word| word.to_string()).collect()
}

fn plain(program: &str, args: &[&str]) -> Invocation {
    Invocation {
        program: program.to_string(),
        args: strings(args),
        env: Vec::new(),
        dir: None,
        stdout: Stdout::Inherit,
    }
}

fn project(kind: &str) -> Manifest {
    Manifest::new(Some(vec![Target {
        name: Some("my-lib".to_string()),
        kinds: Some(vec![Some(kind.to_string())]),
        extra_filename: None,
    }]))
}

fn upload() -> Upload {
    Upload {
        index_page: "<meta http-equiv=refresh content=0;url=my_lib/index.html>\n".to_string(),
        commands: vec![
            plain("git", &["clone", "https://github.com/davisp/ghp-import"]),
            plain("python", &["./ghp-import/ghp_import.py", "-n", "target/doc"]),
            Invocation {
                stdout: Stdout::Redact("s3cr3t".to_string()),
                ..plain("git", &["push", "-fq", "https://s3cr3t@github.com/me/my-lib.git", "gh-pages"])
            },
        ],
    }
}

#[test]
fn master_uploads_by_default() {
    assert_eq!(
        doc_upload(&project("lib"), "master", "me/my-lib", false, None, Some("s3cr3t")),
        Ok(Some(upload()))
    );
}

#[test]
fn the_wanted_branch_uploads() {
    assert_eq!(
        doc_upload(&project("lib"), "release", "me/my-lib", false, Some("release"), Some("s3cr3t")),
        Ok(Some(upload()))
    );
    assert_eq!(
        doc_upload(&project("lib"), "master", "me/my-lib", false, Some("release"), Some("s3cr3t")),
        Ok(None)
    );
}

#[test]
fn other_branches_do_not_upload() {
    assert_eq!(doc_upload(&project("lib"), "feature", "me/my-lib", false, None, Some("s3cr3t")), Ok(None));
    assert_eq!(doc_upload(&project("lib"), "", "me/my-lib", false, None, None), Ok(None));
}

#[test]
fn pull_requests_do_not_upload() {
    assert_eq!(doc_upload(&project("lib"), "master", "me/my-lib", true, None, Some("s3cr3t")), Ok(None));
    assert_eq!(doc_upload(&project("lib"), "master", "me/my-lib", true, None, None), Ok(None));
}

#[test]
fn an_upload_needs_a_token() {
    assert_eq!(
        doc_upload(&project("lib"), "master", "me/my-lib", false, None, None),
        Err(UploadError::MissingToken)
    );
}

#[test]
fn a_project_without_library_cannot_upload() {
    assert_eq!(
        doc_upload(&project("bin"), "master", "me/my-lib", false, None, Some("s3cr3t")),
        Err(UploadError::NoLibrary)
    );
    assert_eq!(
        doc_upload(&project("bin"), "feature", "me/my-lib", true, None, None),
        Err(UploadError::NoLibrary)
    );
}

#[test]
fn the_push_holds_the_token_and_is_masked() {
    let list = commands("tok", "owner/repo");
    assert_eq!(list.len(), 3);
    assert_eq!(list[2].args, strings(&["push", "-fq", "https://tok@github.com/owner/repo.git", "gh-pages"]));
    assert_eq!(list[2].stdout, Stdout::Redact("tok".to_string()));
    assert_eq!(list[0].stdout, Stdout::Inherit);
    assert_eq!(list[1].stdout, Stdout::Inherit);
}

#[test]
fn a_pull_request_is_told_by_two_variables() {
    assert_eq!(pull_request(Some("17"), None), Some(true));
    assert_eq!(pull_request(Some(""), Some("false")), Some(true));
    assert_eq!(pull_request(None, Some("true")), Some(true));
    assert_eq!(pull_request(None, Some("false")), Some(false));
    assert_eq!(pull_request(None, Some("17")), None);
    assert_eq!(pull_request(None, Some("")), None);
    assert_eq!(pull_request(None, Some("False")), None);
    assert_eq!(pull_request(None, None), None);
}
