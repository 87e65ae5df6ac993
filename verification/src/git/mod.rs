use vstd::prelude::*;

use crate::text::{lemma_views_of, split_char, split_on};

verus! {

#[verifier::external_type_specification]
#[verifier::external_body]
pub struct ExGit2Repository(git2::Repository);

#[verifier::external_type_specification]
#[verifier::external_body]
pub struct ExGit2Reference<'repo>(git2::Reference<'repo>);

#[verifier::external_type_specification]
#[verifier::external_body]
pub struct ExGit2Commit<'repo>(git2::Commit<'repo>);

#[verifier::external_type_specification]
#[verifier::external_body]
pub struct ExGit2Signature<'a>(git2::Signature<'a>);

#[verifier::external_type_specification]
#[verifier::external_body]
pub struct ExGit2Remote<'repo>(git2::Remote<'repo>);

#[verifier::external_type_specification]
#[verifier::external_body]
pub struct ExGit2Error(git2::Error);

/// Relies on git2::Repository::open: opens the existing repository at the
/// given path, failing when there is none. What comes back depends on the
/// disk, so nothing more is promised.
#[verifier::external_body]
pub(crate) fn open_repository(path: &str) -> Result<git2::Repository, git2::Error> {
    git2::Repository::open(path)
}

/// Relies on git2::Repository::path: the path to the repository's own
/// directory, converted to a string lossily.
#[verifier::external_body]
pub(crate) fn repo_path_string(repo: &git2::Repository) -> String {
    repo.path().to_string_lossy().to_string()
}

/// Relies on git2::Repository::head: the reference HEAD points at.
#[verifier::external_body]
pub(crate) fn repo_head(repo: &git2::Repository) -> Result<git2::Reference<'_>, git2::Error> {
    repo.head()
}

/// Relies on git2::Reference::peel_to_commit: the commit the reference
/// resolves to, if it resolves to one.
#[verifier::external_body]
pub(crate) fn peel_to_commit<'repo>(reference: &git2::Reference<'repo>) -> Result<
    git2::Commit<'repo>,
    git2::Error,
> {
    reference.peel_to_commit()
}

/// Relies on git2::Commit::parent: the commit's first parent, when the
/// commit has at least one.
#[verifier::external_body]
pub(crate) fn first_parent<'repo>(commit: &git2::Commit<'repo>) -> Option<git2::Commit<'repo>> {
    commit.parent(0).ok()
}

/// Relies on git2::Commit::message: the commit message, when it is valid
/// text.
#[verifier::external_body]
pub(crate) fn commit_message(commit: &git2::Commit<'_>) -> Option<String> {
    match commit.message() {
        Ok(m) => Some(m.to_owned()),
        Err(_) => None,
    }
}

/// Relies on git2::Commit::author: the author signature recorded in the
/// commit.
#[verifier::external_body]
pub(crate) fn commit_author<'repo>(commit: &'repo git2::Commit<'repo>) -> git2::Signature<'repo> {
    commit.author()
}

/// Relies on git2::Signature::name: the name on the signature, when it is
/// valid text.
#[verifier::external_body]
pub(crate) fn signature_name(signature: &git2::Signature<'_>) -> Option<String> {
    match signature.name() {
        Ok(n) => Some(n.to_owned()),
        Err(_) => None,
    }
}

/// Relies on git2::Commit::id: the commit's object id, rendered as text.
#[verifier::external_body]
pub(crate) fn commit_id_string(commit: &git2::Commit<'_>) -> String {
    commit.id().to_string()
}

/// Relies on git2::Repository::find_remote: the named remote, when the
/// repository has one by that name.
#[verifier::external_body]
pub(crate) fn find_remote_named<'repo>(repo: &'repo git2::Repository, name: &str) -> Option<
    git2::Remote<'repo>,
> {
    repo.find_remote(name).ok()
}

/// Relies on git2::Remote::url: the remote's URL, when it is valid text.
#[verifier::external_body]
pub(crate) fn remote_url(remote: &git2::Remote<'_>) -> Option<String> {
    match remote.url() {
        Ok(u) => Some(u.to_owned()),
        Err(_) => None,
    }
}

/// Relies on git2::Error::message: the human-readable description of the
/// error.
#[verifier::external_body]
pub(crate) fn git_error_message(error: &git2::Error) -> String {
    error.message().to_owned()
}

/// Why a repository could not be opened or read, carried as plain text.
pub struct RepositoryError {
    pub message: String,
}

/// The display name a repository path earns: the piece before the final
/// separator, or a placeholder when the path is too shallow to have one.
pub open spec fn repo_name_spec(path: Seq<char>) -> Seq<char> {
    let folders = split_on(path, '/');
    if folders.len() >= 2 {
        folders[folders.len() - 2]
    } else {
        "UNNAMED"@
    }
}

/// The name under which the repository at `path` is listed.
pub fn get_repo_name(path: &str) -> (r: String)
    ensures
        r@ == repo_name_spec(path@),
{
    let folders = split_char(path, '/');
    proof {
        lemma_views_of(folders@);
    }
    if folders.len() >= 2 {
        folders[folders.len() - 2].clone()
    } else {
        "UNNAMED".to_owned()
    }
}

/// The URL of the repository's `origin` remote, if it has one with a
/// readable URL.
pub fn get_repo_url(repo: &git2::Repository) -> Option<String> {
    let remote = find_remote_named(repo, "origin");
    match remote {
        Some(r) => remote_url(&r),
        None => None,
    }
}

/// An opened repository together with the descriptor under which it is
/// remembered.
pub struct GitRepo {
    pub seralized_data: crate::config::repo::SerializedRepository,
    pub git2_repository: git2::Repository,
}

impl GitRepo {
    /// Open the repository at `path` and derive its descriptor.
    pub fn open_repo(path: &str) -> (r: Result<Self, RepositoryError>)
        ensures
            r matches Ok(g) ==> g.seralized_data.name@ == repo_name_spec(g.seralized_data.path@),
    {
        match open_repository(path) {
            Ok(repo) => Ok(Self::from_git2_repo(repo)),
            Err(e) => Err(RepositoryError { message: git_error_message(&e) }),
        }
    }

    /// Wrap an already opened repository: its own directory path becomes the
    /// descriptor's path, the listed name is derived from that path, and the
    /// `origin` URL is recorded when there is one.
    pub fn from_git2_repo(repo: git2::Repository) -> (r: Self)
        ensures
            r.seralized_data.name@ == repo_name_spec(r.seralized_data.path@),
    {
        let path = repo_path_string(&repo);
        let name = get_repo_name(path.as_str());
        let url = match get_repo_url(&repo) {
            Some(u) => u,
            None => String::new(),
        };
        GitRepo {
            seralized_data: crate::config::repo::SerializedRepository { path, name, repo_url: url },
            git2_repository: repo,
        }
    }

    /// Reopen the repository a remembered descriptor points at, keeping the
    /// descriptor as it was remembered.
    pub fn from_serialized_repo(repo: crate::config::repo::SerializedRepository) -> (r: Result<
        Self,
        RepositoryError,
    >)
        ensures
            r matches Ok(g) ==> g.seralized_data == repo,
    {
        match open_repository(repo.path.as_str()) {
            Ok(git2_repo) => Ok(GitRepo { seralized_data: repo, git2_repository: git2_repo }),
            Err(e) => Err(RepositoryError { message: git_error_message(&e) }),
        }
    }
}

} // verus!
