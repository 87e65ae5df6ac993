use volnita::volnita::{collect_commit_history, commit_row};

fn fixed_signature() -> git2::Signature<'static> {
    git2::Signature::new("Alice", "alice@example.com", &git2::Time::new(1_700_000_000, 0))
        .unwrap()
}

fn linear_repo(dir: &str, messages: &[&str]) -> git2::Repository {
    let repo = git2::Repository::init(dir).unwrap();
    let sig = fixed_signature();
    let tree_id = {
        let mut index = repo.index().unwrap();
        index.write_tree().unwrap()
    };
    {
        let tree = repo.find_tree(tree_id).unwrap();
        let mut parent_id = None;
        for message in messages {
            let id = match parent_id {
                None => repo.commit(None, &sig, &sig, message, &tree, &[]).unwrap(),
                Some(pid) => {
                    let parent = repo.find_commit(pid).unwrap();
                    repo.commit(None, &sig, &sig, message, &tree, &[&parent]).unwrap()
                },
            };
            parent_id = Some(id);
        }
        repo.reference("refs/heads/main", parent_id.unwrap(), true, "fixture").unwrap();
    }
    repo.set_head("refs/heads/main").unwrap();
    repo
}

#[test]
fn linear_three_commit_history_walks_newest_first() {
    let repo = linear_repo("/tmp/volnita_walk_three", &["C1", "C2", "C3"]);
    let rows = collect_commit_history(&repo).unwrap();
    assert_eq!(rows.len(), 3);
    assert_eq!(rows[0][0], "C3");
    assert_eq!(rows[1][0], "C2");
    assert_eq!(rows[2][0], "C1");
    for row in &rows {
        assert_eq!(row.len(), 3);
        assert_eq!(row[1], "Alice");
        // the id cell is the commit id in hex
        assert_eq!(row[2].len(), 40);
    }
    let head_id = repo.head().unwrap().peel_to_commit().unwrap().id().to_string();
    assert_eq!(rows[0][2], head_id);
}

#[test]
fn single_commit_history_yields_one_row() {
    let repo = linear_repo("/tmp/volnita_walk_single", &["C1"]);
    let rows = collect_commit_history(&repo).unwrap();
    assert_eq!(rows.len(), 1);
    assert_eq!(rows[0][0], "C1");
    assert_eq!(rows[0][1], "Alice");
}

#[test]
fn unborn_head_yields_no_history() {
    let repo = git2::Repository::init("/tmp/volnita_walk_empty").unwrap();
    assert!(collect_commit_history(&repo).is_none());
}

#[test]
fn commit_row_needs_message_and_author() {
    let row = commit_row(Some("m".to_string()), Some("a".to_string()), "id".to_string()).unwrap();
    assert_eq!(row, vec!["m".to_string(), "a".to_string(), "id".to_string()]);
    assert_eq!(commit_row(None, Some("a".to_string()), "id".to_string()), None);
    assert_eq!(commit_row(Some("m".to_string()), None, "id".to_string()), None);
    assert_eq!(commit_row(None, None, "id".to_string()), None);
}
