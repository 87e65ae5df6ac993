use vstd::prelude::*;
use vstd::string::*;

use crate::config::repo::{SavedRepositories, SerializedRepository};
use crate::git::{
    commit_author, commit_id_string, commit_message, first_parent, get_repo_name, peel_to_commit,
    repo_head, repo_name_spec, signature_name, GitRepo,
};
use crate::text::{find_sub, lemma_views_of, lemma_views_of_push, occurs_at, views_of};

verus! {

/// One table row for a walked commit: message, author and id, in display
/// order. Nothing when the commit lacks a readable message or author name:
/// such a commit is malformed data, and the walk that met it yields nothing.
pub fn commit_row(message: Option<String>, author: Option<String>, id: String) -> (r: Option<
    Vec<String>,
>)
    ensures
        match r {
            Some(row) => {
                &&& message matches Some(m) && author matches Some(a) && views_of(row@) == seq![
                    m@,
                    a@,
                    id@,
                ]
                &&& row@.len() == 3
            },
            None => message is None || author is None,
        },
{
    match (message, author) {
        (Some(m), Some(a)) => {
            let ghost gm = m@;
            let ghost ga = a@;
            let mut row: Vec<String> = Vec::new();
            proof {
                lemma_views_of(row@);
            }
            let ghost r0 = row@;
            row.push(m);
            let ghost r1 = row@;
            row.push(a);
            let ghost r2 = row@;
            row.push(id);
            proof {
                lemma_views_of_push(r0, r1.last());
                lemma_views_of_push(r1, r2.last());
                lemma_views_of_push(r2, row@.last());
                assert(views_of(row@) =~= seq![gm, ga, id@]);
            }
            Some(row)
        },
        _ => None,
    }
}

/// The rows of the whole first-parent history of `repo`, starting at the
/// commit `HEAD` resolves to, newest first. All-or-nothing: when `HEAD` does
/// not resolve, or any commit on the walk is malformed, the partial rows are
/// discarded and nothing comes back.
pub fn collect_commit_history(repo: &git2::Repository) -> (r: Option<Vec<Vec<String>>>)
    ensures
        r matches Some(rows) ==> rows@.len() >= 1,
        r matches Some(rows) ==> forall|i: int|
            0 <= i < rows@.len() ==> (#[trigger] rows@[i])@.len() == 3,
{
    let head = match repo_head(repo) {
        Ok(h) => h,
        Err(_) => {
            return None;
        },
    };
    let commit = match peel_to_commit(&head) {
        Ok(c) => c,
        Err(_) => {
            return None;
        },
    };
    let mut commit_history: Vec<Vec<String>> = Vec::new();
    let row = match extract_commit_data(&commit) {
        Some(x) => x,
        None => {
            return None;
        },
    };
    commit_history.push(row);
    let mut parent = first_parent(&commit);
    let mut budget: usize = usize::MAX;
    loop
        invariant
            commit_history@.len() >= 1,
            forall|i: int|
                0 <= i < commit_history@.len() ==> (#[trigger] commit_history@[i])@.len() == 3,
        decreases budget,
    {
        match parent {
            Some(p_commit) => {
                if budget == 0 {
                    // a history longer than the step budget cannot be drained
                    return None;
                }
                budget = budget - 1;
                let row = match extract_commit_data(&p_commit) {
                    Some(x) => x,
                    None => {
                        return None;
                    },
                };
                commit_history.push(row);
                parent = first_parent(&p_commit);
            },
            None => {
                break ;
            },
        }
    }
    Some(commit_history)
}

/// The row for one commit, read through the repository backend.
pub fn extract_commit_data(commit: &git2::Commit<'_>) -> (r: Option<Vec<String>>)
    ensures
        r matches Some(row) ==> row@.len() == 3,
{
    let message = commit_message(commit);
    let author_sig = commit_author(commit);
    let author = signature_name(&author_sig);
    let id = commit_id_string(commit);
    commit_row(message, author, id)
}

/// Open the repository the launch arguments name: the first positional
/// argument when it points at an openable repository; without one, the
/// leading argument itself is tried. An empty argument list names no
/// directory at all and yields nothing; opening failures yield nothing too.
pub fn open_arg_repo(args: &Vec<String>) -> (r: Option<GitRepo>)
    ensures
        args@.len() == 0 ==> r is None,
        r matches Some(g) ==> g.seralized_data.name@ == repo_name_spec(g.seralized_data.path@),
{
    if args.len() >= 2 {
        return match GitRepo::open_repo(args[1].as_str()) {
            Ok(g) => Some(g),
            Err(_) => None,
        };
    }
    if args.len() >= 1 {
        return match GitRepo::open_repo(args[0].as_str()) {
            Ok(g) => Some(g),
            Err(_) => None,
        };
    }
    None
}

/// The working-tree side of a repository path: everything before the first
/// `.git/`, or the whole path when it holds none.
pub fn repo_root_path(path: &str) -> (r: String)
    ensures
        (forall|j: int| !occurs_at(path@, ".git/"@, j)) ==> r@ == path@,
        (exists|j: int| occurs_at(path@, ".git/"@, j)) ==> (exists|i: int|
            {
                &&& r@ == path@.take(i)
                &&& occurs_at(path@, ".git/"@, i)
                &&& forall|j: int| 0 <= j < i ==> !occurs_at(path@, ".git/"@, j)
            }),
{
    match find_sub(path, ".git/") {
        Some(i) => {
            proof {
                assert(path@.take(i as int) =~= path@.subrange(0, i as int));
            }
            path.substring_char(0, i).to_owned()
        },
        None => path.to_owned(),
    }
}

/// The descriptor a just-browsed repository is remembered under: the given
/// path, the display name that path earns, and the `origin` URL when one was
/// found.
pub fn build_recent_descriptor(repo_path: String, url: Option<String>) -> (r: SerializedRepository)
    ensures
        r.path@ == repo_path@,
        r.name@ == repo_name_spec(repo_path@),
        url matches Some(u) ==> r.repo_url@ == u@,
        url is None ==> r.repo_url@ == Seq::<char>::empty(),
{
    let name = get_repo_name(repo_path.as_str());
    let repo_url = match url {
        Some(u) => u,
        None => String::new(),
    };
    SerializedRepository { path: repo_path, name, repo_url }
}

/// Fold `repo` into the remembered store's path-keyed contents: the pure
/// half of remembering a repository. The storage layer loads the store
/// before this and persists what comes back.
pub fn save_recent_repo(conf: SavedRepositories, repo: SerializedRepository) -> (r:
    SavedRepositories)
    ensures
        r.by_path() == conf.by_path().insert(repo.path@, repo),
        r.paths_unique(),
{
    let mut merged = conf;
    merged.merge(repo);
    merged
}

} // verus!
