use vstd::prelude::*;
use vstd::string::*;

verus! {

/// `s` split at every character of `seps`: the pieces between separators, in
/// order, kept even when empty. The result always holds at least one piece.
pub open spec fn split_any(s: Seq<char>, seps: Set<char>) -> Seq<Seq<char>>
    decreases s.len(),
{
    if s.len() == 0 {
        seq![Seq::<char>::empty()]
    } else if seps.contains(s[0]) {
        seq![Seq::<char>::empty()] + split_any(s.skip(1), seps)
    } else {
        let rest = split_any(s.skip(1), seps);
        seq![seq![s[0]] + rest[0]] + rest.skip(1)
    }
}

/// `s` split at every occurrence of the one separator `sep`.
pub open spec fn split_on(s: Seq<char>, sep: char) -> Seq<Seq<char>> {
    split_any(s, set![sep])
}

pub proof fn lemma_split_any_nonempty(s: Seq<char>, seps: Set<char>)
    ensures
        split_any(s, seps).len() >= 1,
    decreases s.len(),
{
    if s.len() > 0 {
        lemma_split_any_nonempty(s.skip(1), seps);
    }
}

/// Appending one character either extends the last piece or, when the
/// character is a separator, opens a fresh empty piece.
pub proof fn lemma_split_any_push(s: Seq<char>, seps: Set<char>, c: char)
    ensures
        seps.contains(c) ==> split_any(s.push(c), seps) == split_any(s, seps).push(
            Seq::<char>::empty(),
        ),
        !seps.contains(c) ==> split_any(s.push(c), seps) == split_any(s, seps).update(
            split_any(s, seps).len() - 1,
            split_any(s, seps).last().push(c),
        ),
    decreases s.len(),
{
    lemma_split_any_nonempty(s, seps);
    let before = split_any(s, seps);
    let after = split_any(s.push(c), seps);
    if s.len() == 0 {
        assert(s.push(c)[0] == c);
        assert(s.push(c).skip(1) =~= Seq::<char>::empty());
        let rest2 = split_any(s.push(c).skip(1), seps);
        assert(rest2 == seq![Seq::<char>::empty()]);
        if seps.contains(c) {
            assert(after =~~= before.push(Seq::<char>::empty()));
        } else {
            assert(after[0] =~= before.last().push(c));
            assert(after =~~= before.update(before.len() - 1, before.last().push(c)));
        }
    } else {
        lemma_split_any_nonempty(s.skip(1), seps);
        lemma_split_any_push(s.skip(1), seps, c);
        assert(s.push(c).skip(1) =~= s.skip(1).push(c));
        assert(s.push(c)[0] == s[0]);
        let rest = split_any(s.skip(1), seps);
        let rest2 = split_any(s.skip(1).push(c), seps);
        if seps.contains(c) {
            assert(rest2 == rest.push(Seq::<char>::empty()));
            if seps.contains(s[0]) {
                assert(after =~~= before.push(Seq::<char>::empty()));
            } else {
                assert(rest2[0] == rest[0]);
                assert(rest2.skip(1) =~= rest.skip(1).push(Seq::<char>::empty()));
                assert(after =~~= before.push(Seq::<char>::empty()));
            }
        } else {
            assert(rest2 == rest.update(rest.len() - 1, rest.last().push(c)));
            if seps.contains(s[0]) {
                assert(after =~~= before.update(before.len() - 1, before.last().push(c)));
            } else {
                if rest.len() == 1 {
                    assert(rest2[0] == rest[0].push(c));
                    assert(seq![s[0]] + rest[0].push(c) =~= (seq![s[0]] + rest[0]).push(c));
                    assert(after =~~= before.update(before.len() - 1, before.last().push(c)));
                } else {
                    assert(rest2[0] == rest[0]);
                    assert(rest2.skip(1) =~= rest.skip(1).update(
                        rest.len() - 2,
                        rest.last().push(c),
                    ));
                    assert(after =~~= before.update(before.len() - 1, before.last().push(c)));
                }
            }
        }
    }
}

/// The character sequences behind a list of owned strings.
pub open spec fn views_of(v: Seq<String>) -> Seq<Seq<char>>
    decreases v.len(),
{
    if v.len() == 0 {
        Seq::<Seq<char>>::empty()
    } else {
        views_of(v.drop_last()).push(v.last()@)
    }
}

pub proof fn lemma_views_of(v: Seq<String>)
    ensures
        views_of(v).len() == v.len(),
        forall|i: int| 0 <= i < v.len() ==> views_of(v)[i] == #[trigger] v[i]@,
    decreases v.len(),
{
    if v.len() > 0 {
        lemma_views_of(v.drop_last());
        assert forall|i: int| 0 <= i < v.len() implies views_of(v)[i] == v[i]@ by {
            if i < v.len() - 1 {
                assert(views_of(v.drop_last())[i] == v.drop_last()[i]@);
            }
        }
    }
}

pub proof fn lemma_views_of_push(v: Seq<String>, t: String)
    ensures
        views_of(v.push(t)) == views_of(v).push(t@),
{
    assert(v.push(t).drop_last() =~= v);
}

/// Split an owned copy of `s` at every character `pred` accepts, where
/// `seps` is the set of characters `pred` decides for.
fn split_by<F: Fn(char) -> bool>(s: &str, pred: F, Ghost(seps): Ghost<Set<char>>) -> (r: Vec<
    String,
>)
    requires
        forall|c: char| #[trigger] call_requires(pred, (c,)),
        forall|c: char, b: bool| #[trigger] call_ensures(pred, (c,), b) ==> b == seps.contains(c),
    ensures
        views_of(r@) == split_any(s@, seps),
{
    let n = s.unicode_len();
    let mut out: Vec<String> = Vec::new();
    let mut start: usize = 0;
    let mut i: usize = 0;
    proof {
        assert(s@.take(0) =~= Seq::<char>::empty());
        assert(s@.subrange(0, 0) =~= Seq::<char>::empty());
    }
    while i < n
        invariant
            n == s@.len(),
            0 <= start <= i <= n,
            forall|c: char| #[trigger] call_requires(pred, (c,)),
            forall|c: char, b: bool|
                #[trigger] call_ensures(pred, (c,), b) ==> b == seps.contains(c),
            views_of(out@).push(s@.subrange(start as int, i as int)) == split_any(
                s@.take(i as int),
                seps,
            ),
        decreases n - i,
    {
        let c = s.get_char(i);
        proof {
            assert(s@.take(i + 1) =~= s@.take(i as int).push(s@[i as int]));
            lemma_split_any_push(s@.take(i as int), seps, s@[i as int]);
            lemma_split_any_nonempty(s@.take(i as int), seps);
        }
        if pred(c) {
            let token = s.substring_char(start, i).to_owned();
            let ghost old_out = out@;
            out.push(token);
            proof {
                lemma_views_of_push(old_out, token);
                assert(s@.subrange(i + 1, i + 1) =~= Seq::<char>::empty());
                assert(views_of(out@).push(s@.subrange(i + 1, i + 1)) =~~= split_any(
                    s@.take(i + 1),
                    seps,
                ));
            }
            start = i + 1;
        } else {
            proof {
                let before = split_any(s@.take(i as int), seps);
                assert(before.update(before.len() - 1, before.last().push(s@[i as int]))
                    =~~= views_of(out@).push(s@.subrange(start as int, i as int).push(
                    s@[i as int],
                )));
                assert(s@.subrange(start as int, i + 1) =~= s@.subrange(start as int,
                    i as int,
                ).push(s@[i as int]));
            }
        }
        i += 1;
    }
    let token = s.substring_char(start, n).to_owned();
    let ghost old_out = out@;
    out.push(token);
    proof {
        assert(s@.take(n as int) =~= s@);
        lemma_views_of_push(old_out, token);
        assert(views_of(out@) =~~= split_any(s@, seps));
    }
    out
}

/// Split an owned copy of `s` at every occurrence of `sep`.
pub fn split_char(s: &str, sep: char) -> (r: Vec<String>)
    ensures
        views_of(r@) == split_on(s@, sep),
{
    let hits_sep = |c: char| -> (b: bool)
        ensures
            b == (c == sep),
        { c == sep };
    let ghost seps = set![sep];
    split_by(s, hits_sep, Ghost(seps))
}

/// The characters that delimit command-line tokens.
pub open spec fn command_spaces() -> Set<char> {
    set![' ', '\t', '\r', '\n']
}

/// True when `c` delimits command-line tokens.
pub fn is_space_char(c: char) -> (r: bool)
    ensures
        r == command_spaces().contains(c),
{
    c == ' ' || c == '\t' || c == '\r' || c == '\n'
}

/// Split an owned copy of `s` at every whitespace character.
fn split_spaces(s: &str) -> (r: Vec<String>)
    ensures
        views_of(r@) == split_any(s@, command_spaces()),
{
    let hits_space = |c: char| -> (b: bool)
        ensures
            b == command_spaces().contains(c),
        { is_space_char(c) };
    let ghost seps = command_spaces();
    split_by(s, hits_space, Ghost(seps))
}

/// The pieces of `parts` that are not empty, in order.
pub open spec fn nonempty_of(parts: Seq<Seq<char>>) -> Seq<Seq<char>>
    decreases parts.len(),
{
    if parts.len() == 0 {
        Seq::<Seq<char>>::empty()
    } else {
        let rest = nonempty_of(parts.drop_last());
        if parts.last().len() > 0 {
            rest.push(parts.last())
        } else {
            rest
        }
    }
}

pub proof fn lemma_nonempty_of_push(parts: Seq<Seq<char>>, t: Seq<char>)
    ensures
        t.len() > 0 ==> nonempty_of(parts.push(t)) == nonempty_of(parts).push(t),
        t.len() == 0 ==> nonempty_of(parts.push(t)) == nonempty_of(parts),
{
    assert(parts.push(t).drop_last() =~= parts);
}

/// The whitespace-delimited tokens of a command line, in order: what the
/// dispatcher matches against and what a handler receives.
pub open spec fn tokens_of(line: Seq<char>) -> Seq<Seq<char>> {
    nonempty_of(split_any(line, command_spaces()))
}

/// Split `line` into its whitespace-delimited tokens, dropping empty pieces.
pub fn tokenize(line: &str) -> (r: Vec<String>)
    ensures
        views_of(r@) == tokens_of(line@),
{
    let parts = split_spaces(line);
    let mut out: Vec<String> = Vec::new();
    let mut i: usize = 0;
    proof {
        lemma_views_of(parts@);
        assert(views_of(parts@).take(0) =~= Seq::<Seq<char>>::empty());
    }
    while i < parts.len()
        invariant
            i <= parts.len(),
            views_of(parts@).len() == parts@.len(),
            forall|j: int| 0 <= j < parts@.len() ==> views_of(parts@)[j] == #[trigger] parts@[j]@,
            views_of(out@) == nonempty_of(views_of(parts@).take(i as int)),
        decreases parts@.len() - i,
    {
        proof {
            assert(views_of(parts@).take(i + 1) =~= views_of(parts@).take(i as int).push(
                parts@[i as int]@,
            ));
            lemma_nonempty_of_push(views_of(parts@).take(i as int), parts@[i as int]@);
        }
        if !parts[i].as_str().is_empty() {
            let token = parts[i].clone();
            let ghost old_out = out@;
            out.push(token);
            proof {
                lemma_views_of_push(old_out, token);
            }
        }
        i += 1;
    }
    proof {
        assert(views_of(parts@).take(parts@.len() as int) =~= views_of(parts@));
    }
    out
}

/// `pat` occurs in `s` starting at position `i`.
pub open spec fn occurs_at(s: Seq<char>, pat: Seq<char>, i: int) -> bool {
    0 <= i && i + pat.len() <= s.len() && s.subrange(i, i + pat.len()) == pat
}

/// Position of the first occurrence of `pat` in `s`, if there is one.
pub fn find_sub(s: &str, pat: &str) -> (r: Option<usize>)
    ensures
        match r {
            Some(i) => occurs_at(s@, pat@, i as int) && (forall|j: int|
                0 <= j < i ==> !occurs_at(s@, pat@, j)),
            None => forall|j: int| !occurs_at(s@, pat@, j),
        },
{
    let n = s.unicode_len();
    let m = pat.unicode_len();
    if m == 0 {
        proof {
            assert(s@.subrange(0, 0) =~= pat@);
        }
        return Some(0);
    }
    if m > n {
        return None;
    }
    let mut i: usize = 0;
    while i <= n - m
        invariant
            n == s@.len(),
            m == pat@.len(),
            1 <= m <= n,
            0 <= i <= n - m + 1,
            forall|j: int| 0 <= j < i ==> !occurs_at(s@, pat@, j),
        decreases n - m + 1 - i,
    {
        let mut k: usize = 0;
        let mut matched = true;
        while k < m && matched
            invariant
                n == s@.len(),
                m == pat@.len(),
                1 <= m <= n,
                0 <= i <= n - m,
                0 <= k <= m,
                matched ==> s@.subrange(i as int, i + k) == pat@.subrange(0, k as int),
                !matched ==> !occurs_at(s@, pat@, i as int),
            decreases m - k + (if matched { 1int } else { 0int }),
        {
            proof {
                assert(s@.subrange(i as int, i + k + 1) =~= s@.subrange(i as int, i + k).push(
                    s@[i + k],
                ));
                assert(pat@.subrange(0, k + 1) =~= pat@.subrange(0, k as int).push(pat@[k as int]));
            }
            if s.get_char(i + k) != pat.get_char(k) {
                matched = false;
                proof {
                    assert(!occurs_at(s@, pat@, i as int)) by {
                        if occurs_at(s@, pat@, i as int) {
                            assert(s@.subrange(i as int, i + m)[k as int] == pat@[k as int]);
                        }
                    }
                }
            } else {
                k += 1;
            }
        }
        if matched {
            proof {
                assert(pat@.subrange(0, m as int) =~= pat@);
            }
            return Some(i);
        }
        i += 1;
    }
    proof {
        assert forall|j: int| !occurs_at(s@, pat@, j) by {
            if 0 <= j <= n - m {
                assert(!occurs_at(s@, pat@, j));
            }
        }
    }
    None
}

/// Relies on `String::push`: appends the given character to the end of the
/// string.
#[verifier::external_body]
pub fn push_char(s: &mut String, c: char)
    ensures
        final(s)@ == old(s)@.push(c),
{
    s.push(c)
}

} // verus!
