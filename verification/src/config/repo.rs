use vstd::prelude::*;

verus! {

/// The minimal identifying and display data for a rememberable repository.
/// `path` is the natural key under which a descriptor is remembered.
pub struct SerializedRepository {
    pub path: String,
    pub name: String,
    pub repo_url: String,
}

impl Clone for SerializedRepository {
    fn clone(&self) -> (r: Self)
        ensures
            r == *self,
    {
        SerializedRepository {
            path: self.path.clone(),
            name: self.name.clone(),
            repo_url: self.repo_url.clone(),
        }
    }
}

/// The remembered repositories. `merge` keeps at most one descriptor per
/// path; the relative order of untouched entries is not part of the
/// contract, only the path-keyed contents are.
pub struct SavedRepositories {
    pub recent_repositories: Vec<SerializedRepository>,
}

/// The descriptors folded into a map keyed by path: a later entry for the
/// same path overrides an earlier one.
pub open spec fn by_path_of(entries: Seq<SerializedRepository>) -> Map<Seq<char>, SerializedRepository>
    decreases entries.len(),
{
    if entries.len() == 0 {
        Map::<Seq<char>, SerializedRepository>::empty()
    } else {
        by_path_of(entries.drop_last()).insert(entries.last().path@, entries.last())
    }
}

/// A path is in the fold's domain exactly when some entry carries it.
pub proof fn lemma_by_path_dom(entries: Seq<SerializedRepository>, key: Seq<char>)
    ensures
        by_path_of(entries).dom().contains(key) == (exists|j: int|
            0 <= j < entries.len() && entries[j].path@ == key),
    decreases entries.len(),
{
    if entries.len() > 0 {
        lemma_by_path_dom(entries.drop_last(), key);
        if entries.last().path@ == key {
            assert(entries[entries.len() - 1].path@ == key);
        } else if exists|j: int| 0 <= j < entries.len() && entries[j].path@ == key {
            let j = choose|j: int| 0 <= j < entries.len() && entries[j].path@ == key;
            assert(entries.drop_last()[j] == entries[j]);
        }
    }
}

/// Putting an entry in front changes the fold only where no later entry
/// already decides that path.
proof fn lemma_by_path_prepend(e: SerializedRepository, s: Seq<SerializedRepository>)
    ensures
        by_path_of(s).dom().contains(e.path@) ==> by_path_of(seq![e] + s) == by_path_of(s),
        !by_path_of(s).dom().contains(e.path@) ==> by_path_of(seq![e] + s) == by_path_of(
            s,
        ).insert(e.path@, e),
    decreases s.len(),
{
    if s.len() == 0 {
        assert(seq![e] + s =~= seq![e]);
        assert(seq![e].drop_last() =~= Seq::<SerializedRepository>::empty());
        assert(by_path_of(Seq::<SerializedRepository>::empty()) == Map::<Seq<char>, SerializedRepository>::empty());
        assert(by_path_of(seq![e] + s) =~= Map::<Seq<char>, SerializedRepository>::empty().insert(
            e.path@,
            e,
        ));
    } else {
        lemma_by_path_prepend(e, s.drop_last());
        assert((seq![e] + s).drop_last() =~= seq![e] + s.drop_last());
        assert((seq![e] + s).last() == s.last());
        if by_path_of(s.drop_last()).dom().contains(e.path@) || s.last().path@ == e.path@ {
            assert(by_path_of(seq![e] + s) =~= by_path_of(s));
        } else {
            assert(by_path_of(seq![e] + s) =~= by_path_of(s).insert(e.path@, e));
        }
    }
}

/// True when some stored descriptor carries `path`.
fn holds_path(list: &Vec<SerializedRepository>, path: &String) -> (r: bool)
    ensures
        r == exists|j: int| 0 <= j < list@.len() && list@[j].path@ == path@,
{
    let mut i: usize = 0;
    while i < list.len()
        invariant
            i <= list@.len(),
            forall|j: int| 0 <= j < i ==> list@[j].path@ != path@,
        decreases list@.len() - i,
    {
        if list[i].path.eq(path) {
            return true;
        }
        i += 1;
    }
    false
}

impl SavedRepositories {
    /// The store as a mathematical map from path to descriptor.
    pub open spec fn by_path(&self) -> Map<Seq<char>, SerializedRepository> {
        by_path_of(self.recent_repositories@)
    }

    /// No two stored descriptors share a path.
    pub open spec fn paths_unique(&self) -> bool {
        forall|a: int, b: int|
            0 <= a < b < self.recent_repositories@.len()
                ==> #[trigger] self.recent_repositories@[a].path@
                != #[trigger] self.recent_repositories@[b].path@
    }

    /// Remember `repo`: afterwards exactly one descriptor carries its path,
    /// and it is `repo` itself — the most recently merged descriptor for a
    /// path wins. Every other path keeps the descriptor it had, with the
    /// store rebuilt as a path-keyed map, so the relative order of untouched
    /// entries is deliberately unspecified.
    pub fn merge(&mut self, repo: SerializedRepository)
        ensures
            final(self).by_path() == old(self).by_path().insert(repo.path@, repo),
            final(self).paths_unique(),
    {
        let ghost rp = repo.path@;
        let ghost entries = old(self).recent_repositories@;
        let mut out: Vec<SerializedRepository> = Vec::new();
        out.push(repo);
        proof {
            assert(out@.drop_last() =~= Seq::<SerializedRepository>::empty());
            assert(entries.skip(entries.len() as int) =~= Seq::<SerializedRepository>::empty());
            assert(by_path_of(out@) =~= by_path_of(entries.skip(entries.len() as int)).insert(
                rp,
                out@.last(),
            ));
        }
        let mut i: usize = self.recent_repositories.len();
        while i > 0
            invariant
                i <= entries.len(),
                entries == self.recent_repositories@,
                out@.len() >= 1,
                out@[0] == repo,
                by_path_of(out@) == by_path_of(entries.skip(i as int)).insert(rp, out@[0]),
                forall|a: int, b: int|
                    0 <= a < b < out@.len() ==> #[trigger] out@[a].path@ != #[trigger] out@[b].path@,
            decreases i,
        {
            let e = &self.recent_repositories[i - 1];
            proof {
                assert(entries.skip(i - 1) =~= seq![entries[i - 1]] + entries.skip(i as int));
                lemma_by_path_prepend(entries[i - 1], entries.skip(i as int));
                lemma_by_path_dom(entries.skip(i as int), entries[i - 1].path@);
                lemma_by_path_dom(out@, entries[i - 1].path@);
            }
            if !holds_path(&out, &e.path) {
                let owned = e.clone();
                let ghost old_out = out@;
                out.push(owned);
                proof {
                    assert(out@.drop_last() =~= old_out);
                    assert(out@[0] == old_out[0]);
                    assert(by_path_of(out@) =~= by_path_of(entries.skip(i - 1)).insert(
                        rp,
                        out@[0],
                    ));
                }
            } else {
                proof {
                    assert(by_path_of(out@) =~= by_path_of(entries.skip(i - 1)).insert(
                        rp,
                        out@[0],
                    ));
                }
            }
            i = i - 1;
        }
        proof {
            assert(entries.skip(0) =~= entries);
        }
        self.recent_repositories = out;
    }
}

/// Last-write-wins law: remembering two descriptors with the same path, one
/// after the other, leaves the store's path-keyed contents exactly as if
/// only the second had been remembered — one entry for that path, carrying
/// the second descriptor's fields.
pub proof fn lemma_merge_last_wins(
    m: Map<Seq<char>, SerializedRepository>,
    first: SerializedRepository,
    second: SerializedRepository,
)
    requires
        first.path@ == second.path@,
    ensures
        m.insert(first.path@, first).insert(second.path@, second) == m.insert(
            second.path@,
            second,
        ),
{
    assert(m.insert(first.path@, first).insert(second.path@, second) =~= m.insert(
        second.path@,
        second,
    ));
}

impl Default for SavedRepositories {
    /// A fresh store remembers nothing.
    fn default() -> (r: Self)
        ensures
            r.recent_repositories@.len() == 0,
            r.by_path() == Map::<Seq<char>, SerializedRepository>::empty(),
    {
        SavedRepositories { recent_repositories: Vec::new() }
    }
}

} // verus!
