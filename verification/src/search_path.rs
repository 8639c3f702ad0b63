//! Putting directories at the front of a `;`-separated search path (the
//! `PATH` of Windows), so that the libraries in them are found first.
use vstd::prelude::*;

use crate::text::{concat3, str_eq, texts};

verus! {

/// The parts of `s` between its semicolons, as `str::split(';')` gives them:
/// one part more than there are semicolons.
pub open spec fn split_on_semicolons(s: Seq<char>) -> Seq<Seq<char>>
    decreases s.len(),
{
    if s.len() == 0 {
        seq![Seq::<char>::empty()]
    } else {
        let parts = split_on_semicolons(s.drop_last());
        if s.last() == ';' {
            parts.push(Seq::empty())
        } else {
            parts.update(parts.len() - 1, parts.last().push(s.last()))
        }
    }
}

/// The parts joined with semicolons between them.
pub open spec fn join_with_semicolons(parts: Seq<Seq<char>>) -> Seq<char>
    decreases parts.len(),
{
    if parts.len() == 0 {
        Seq::empty()
    } else if parts.len() == 1 {
        parts[0]
    } else {
        join_with_semicolons(parts.drop_last()) + seq![';'] + parts.last()
    }
}

/// `parts` with each of `dirs`, in turn, put in front unless it is there already.
pub open spec fn merge_dirs(parts: Seq<Seq<char>>, dirs: Seq<Seq<char>>) -> Seq<Seq<char>>
    decreases dirs.len(),
{
    if dirs.len() == 0 {
        parts
    } else {
        let prev = merge_dirs(parts, dirs.drop_last());
        if prev.contains(dirs.last()) {
            prev
        } else {
            seq![dirs.last()] + prev
        }
    }
}

/// The search path `current` with `dirs` put in front.
pub open spec fn prepended_path(current: Seq<char>, dirs: Seq<Seq<char>>) -> Seq<char> {
    join_with_semicolons(merge_dirs(split_on_semicolons(current), dirs))
}

/// No semicolon in `s`.
pub open spec fn no_semicolon(s: Seq<char>) -> bool {
    !s.contains(';')
}

/// No part holds a semicolon.
pub open spec fn parts_clean(parts: Seq<Seq<char>>) -> bool {
    forall|i: int| 0 <= i < parts.len() ==> no_semicolon(#[trigger] parts[i])
}

/// Splitting gives at least one part, and no part holds a semicolon.
pub proof fn lemma_split_shape(s: Seq<char>)
    ensures
        split_on_semicolons(s).len() >= 1,
        parts_clean(split_on_semicolons(s)),
    decreases s.len(),
{
    if s.len() > 0 {
        lemma_split_shape(s.drop_last());
        let parts = split_on_semicolons(s.drop_last());
        let res = split_on_semicolons(s);
        if s.last() != ';' {
            assert forall|i: int| 0 <= i < res.len() implies no_semicolon(#[trigger] res[i]) by {
                if i == parts.len() - 1 {
                    let p = parts.last();
                    assert(no_semicolon(p));
                    if p.push(s.last()).contains(';') {
                        let k = choose|k: int| 0 <= k < p.push(s.last()).len() && p.push(s.last())[k] == ';';
                        assert(p[k] == ';');
                    }
                } else {
                    assert(res[i] == parts[i]);
                }
            }
        } else {
            assert forall|i: int| 0 <= i < res.len() implies no_semicolon(#[trigger] res[i]) by {
                if i < parts.len() {
                    assert(res[i] == parts[i]);
                }
            }
        }
    }
}

/// Joining the parts of a search path gives the search path back.
pub proof fn lemma_join_split(s: Seq<char>)
    ensures
        join_with_semicolons(split_on_semicolons(s)) == s,
    decreases s.len(),
{
    if s.len() > 0 {
        let t = s.drop_last();
        lemma_join_split(t);
        lemma_split_shape(t);
        let parts = split_on_semicolons(t);
        let res = split_on_semicolons(s);
        if s.last() == ';' {
            assert(res.drop_last() =~= parts);
            assert(s =~= t + seq![';'] + Seq::<char>::empty());
        } else {
            if parts.len() == 1 {
                assert(res[0] =~= t.push(s.last()));
                assert(s =~= t.push(s.last()));
            } else {
                assert(res.drop_last() =~= parts.drop_last());
                assert(t == join_with_semicolons(parts.drop_last()) + seq![';'] + parts.last());
                assert(s =~= t.push(s.last()));
                assert(s =~= join_with_semicolons(parts.drop_last()) + seq![';'] + parts.last().push(
                    s.last(),
                ));
            }
        }
    }
}

/// A string without semicolons is a single part.
pub proof fn lemma_split_clean(s: Seq<char>)
    requires
        no_semicolon(s),
    ensures
        split_on_semicolons(s) == seq![s],
    decreases s.len(),
{
    if s.len() > 0 {
        let t = s.drop_last();
        assert(no_semicolon(t)) by {
            if t.contains(';') {
                let k = choose|k: int| 0 <= k < t.len() && t[k] == ';';
                assert(s[k] == ';');
            }
        }
        lemma_split_clean(t);
        assert(s.last() != ';') by {
            assert(s[s.len() - 1] == s.last());
        }
        assert(t.push(s.last()) =~= s);
        assert(split_on_semicolons(s) =~= seq![s]);
    } else {
        assert(s =~= Seq::<char>::empty());
        assert(split_on_semicolons(s) =~= seq![s]);
    }
}

/// Splitting across a semicolon splits each side.
pub proof fn lemma_split_concat(a: Seq<char>, b: Seq<char>)
    ensures
        split_on_semicolons(a + seq![';'] + b) == split_on_semicolons(a) + split_on_semicolons(b),
    decreases b.len(),
{
    lemma_split_shape(b);
    if b.len() == 0 {
        assert((a + seq![';'] + b).drop_last() =~= a);
        assert(a + seq![';'] + b =~= a + seq![';']);
    } else {
        let b2 = b.drop_last();
        lemma_split_concat(a, b2);
        lemma_split_shape(b2);
        let s = a + seq![';'] + b;
        assert(s.drop_last() =~= a + seq![';'] + b2);
        assert(s.last() == b.last());
        let pa = split_on_semicolons(a);
        let pb2 = split_on_semicolons(b2);
        if b.last() == ';' {
            assert(split_on_semicolons(s) =~= pa + pb2.push(Seq::empty()));
        } else {
            assert(split_on_semicolons(s) =~= pa + pb2.update(pb2.len() - 1, pb2.last().push(b.last())));
        }
    }
}

/// Splitting joined parts that hold no semicolons gives the parts back.
pub proof fn lemma_split_join(parts: Seq<Seq<char>>)
    requires
        parts.len() >= 1,
        parts_clean(parts),
    ensures
        split_on_semicolons(join_with_semicolons(parts)) == parts,
    decreases parts.len(),
{
    if parts.len() == 1 {
        assert(no_semicolon(parts[0]));
        lemma_split_clean(parts[0]);
        assert(seq![parts[0]] =~= parts);
    } else {
        let init = parts.drop_last();
        assert(parts_clean(init)) by {
            assert forall|i: int| 0 <= i < init.len() implies no_semicolon(#[trigger] init[i]) by {
                assert(init[i] == parts[i]);
            }
        }
        lemma_split_join(init);
        assert(no_semicolon(parts[parts.len() - 1]));
        lemma_split_clean(parts.last());
        lemma_split_concat(join_with_semicolons(init), parts.last());
        assert(init + seq![parts.last()] =~= parts);
    }
}

/// Every directory merged in is among the parts afterwards, and the parts
/// there were before follow the ones added.
pub proof fn lemma_merge_contains(parts: Seq<Seq<char>>, dirs: Seq<Seq<char>>)
    ensures
        forall|i: int| 0 <= i < dirs.len() ==> merge_dirs(parts, dirs).contains(#[trigger] dirs[i]),
        exists|added: Seq<Seq<char>>| merge_dirs(parts, dirs) == added + parts,
        merge_dirs(parts, dirs).len() >= parts.len(),
    decreases dirs.len(),
{
    if dirs.len() == 0 {
        assert(merge_dirs(parts, dirs) =~= Seq::<Seq<char>>::empty() + parts);
    } else {
        let init = dirs.drop_last();
        lemma_merge_contains(parts, init);
        let prev = merge_dirs(parts, init);
        let added = choose|added: Seq<Seq<char>>| prev == added + parts;
        let res = merge_dirs(parts, dirs);
        assert forall|i: int| 0 <= i < dirs.len() implies res.contains(#[trigger] dirs[i]) by {
            if i < dirs.len() - 1 {
                assert(dirs[i] == init[i]);
                assert(prev.contains(init[i]));
                if !prev.contains(dirs.last()) {
                    let k = choose|k: int| 0 <= k < prev.len() && prev[k] == init[i];
                    assert(res[k + 1] == prev[k]);
                }
            } else if !prev.contains(dirs.last()) {
                assert(res[0] == dirs.last());
            }
        }
        if !prev.contains(dirs.last()) {
            assert(res =~= (seq![dirs.last()] + added) + parts);
        }
    }
}

/// Merging directories that are all there already changes nothing.
pub proof fn lemma_merge_present(parts: Seq<Seq<char>>, dirs: Seq<Seq<char>>)
    requires
        forall|i: int| 0 <= i < dirs.len() ==> parts.contains(#[trigger] dirs[i]),
    ensures
        merge_dirs(parts, dirs) == parts,
    decreases dirs.len(),
{
    if dirs.len() > 0 {
        let init = dirs.drop_last();
        assert forall|i: int| 0 <= i < init.len() implies parts.contains(#[trigger] init[i]) by {
            assert(init[i] == dirs[i]);
        }
        lemma_merge_present(parts, init);
        assert(parts.contains(dirs[dirs.len() - 1]));
    }
}

/// Merged parts stay free of semicolons when the directories are.
pub proof fn lemma_merge_clean(parts: Seq<Seq<char>>, dirs: Seq<Seq<char>>)
    requires
        parts_clean(parts),
        parts_clean(dirs),
    ensures
        parts_clean(merge_dirs(parts, dirs)),
    decreases dirs.len(),
{
    if dirs.len() > 0 {
        let init = dirs.drop_last();
        assert(parts_clean(init)) by {
            assert forall|i: int| 0 <= i < init.len() implies no_semicolon(#[trigger] init[i]) by {
                assert(init[i] == dirs[i]);
            }
        }
        lemma_merge_clean(parts, init);
        let prev = merge_dirs(parts, init);
        let res = merge_dirs(parts, dirs);
        assert(no_semicolon(dirs[dirs.len() - 1]));
        assert forall|i: int| 0 <= i < res.len() implies no_semicolon(#[trigger] res[i]) by {
            if !prev.contains(dirs.last()) && i > 0 {
                assert(res[i] == prev[i - 1]);
            }
        }
    }
}

/// How many entries of `parts` are `x`.
pub open spec fn occurrences(parts: Seq<Seq<char>>, x: Seq<char>) -> nat
    decreases parts.len(),
{
    if parts.len() == 0 {
        0
    } else {
        occurrences(parts.drop_last(), x) + if parts.last() == x {
            1nat
        } else {
            0nat
        }
    }
}

/// An entry occurs exactly when it is among the parts.
pub proof fn lemma_occurrences_contains(parts: Seq<Seq<char>>, x: Seq<char>)
    ensures
        (occurrences(parts, x) > 0) == parts.contains(x),
    decreases parts.len(),
{
    if parts.len() > 0 {
        let init = parts.drop_last();
        lemma_occurrences_contains(init, x);
        if init.contains(x) {
            let k = choose|k: int| 0 <= k < init.len() && init[k] == x;
            assert(parts[k] == x);
        }
        if parts.contains(x) && parts.last() != x {
            let k = choose|k: int| 0 <= k < parts.len() && parts[k] == x;
            assert(k != parts.len() - 1);
            assert(init[k] == x);
        }
        if parts.last() == x {
            assert(parts[parts.len() - 1] == x);
        }
    }
}

/// Putting `y` in front adds one occurrence of `y` and none of anything else.
pub proof fn lemma_occurrences_front(y: Seq<char>, parts: Seq<Seq<char>>, x: Seq<char>)
    ensures
        occurrences(seq![y] + parts, x) == occurrences(parts, x) + if y == x {
            1nat
        } else {
            0nat
        },
    decreases parts.len(),
{
    if parts.len() == 0 {
        assert((seq![y] + parts).drop_last() =~= Seq::<Seq<char>>::empty());
        assert((seq![y] + parts).last() == y);
        assert(occurrences(Seq::<Seq<char>>::empty(), x) == 0);
    } else {
        lemma_occurrences_front(y, parts.drop_last(), x);
        assert((seq![y] + parts).drop_last() =~= seq![y] + parts.drop_last());
        assert((seq![y] + parts).last() == parts.last());
    }
}

/// Merging adds a directory only where it does not occur yet: afterwards
/// each text occurs as often as before, except a directory to add that did
/// not occur, which occurs once.
pub proof fn lemma_merge_occurrences(parts: Seq<Seq<char>>, dirs: Seq<Seq<char>>, x: Seq<char>)
    ensures
        occurrences(merge_dirs(parts, dirs), x) == if dirs.contains(x) && occurrences(parts, x) == 0 {
            1
        } else {
            occurrences(parts, x)
        },
    decreases dirs.len(),
{
    if dirs.len() == 0 {
    } else {
        let init = dirs.drop_last();
        let d = dirs.last();
        let prev = merge_dirs(parts, init);
        lemma_merge_occurrences(parts, init, x);
        lemma_merge_occurrences(parts, init, d);
        lemma_occurrences_contains(prev, d);
        lemma_occurrences_front(d, prev, x);
        assert(dirs.contains(x) == (init.contains(x) || d == x)) by {
            if dirs.contains(x) && d != x {
                let k = choose|k: int| 0 <= k < dirs.len() && dirs[k] == x;
                assert(k != dirs.len() - 1);
                assert(init[k] == x);
            }
            if init.contains(x) {
                let k = choose|k: int| 0 <= k < init.len() && init[k] == x;
                assert(dirs[k] == x);
            }
            if d == x {
                assert(dirs[dirs.len() - 1] == x);
            }
        }
    }
}

/// No directory ends up in the search path twice: each directory put in
/// front is an entry exactly once when it was an entry at most once before,
/// even when the same directory is given more than once.
pub proof fn law_each_dir_once(current: Seq<char>, dirs: Seq<Seq<char>>, i: int)
    requires
        parts_clean(dirs),
        0 <= i < dirs.len(),
        occurrences(split_on_semicolons(current), dirs[i]) <= 1,
    ensures
        occurrences(split_on_semicolons(prepended_path(current, dirs)), dirs[i]) == 1,
{
    let parts = split_on_semicolons(current);
    lemma_split_shape(current);
    lemma_merge_clean(parts, dirs);
    lemma_merge_contains(parts, dirs);
    lemma_split_join(merge_dirs(parts, dirs));
    lemma_merge_occurrences(parts, dirs, dirs[i]);
    assert(dirs.contains(dirs[i]));
}

/// With no directories to add, the search path is left as it was.
pub proof fn law_nothing_to_add(current: Seq<char>)
    ensures
        prepended_path(current, Seq::empty()) == current,
{
    lemma_join_split(current);
}

/// After the directories are put in front, each of them is an entry of the
/// search path, and the entries there were before follow, in their order.
pub proof fn law_dirs_become_entries(current: Seq<char>, dirs: Seq<Seq<char>>)
    requires
        parts_clean(dirs),
    ensures
        forall|i: int| 0 <= i < dirs.len() ==> split_on_semicolons(prepended_path(current, dirs)).contains(
            #[trigger] dirs[i],
        ),
        exists|added: Seq<Seq<char>>| split_on_semicolons(prepended_path(current, dirs)) == added
            + split_on_semicolons(current),
{
    let parts = split_on_semicolons(current);
    lemma_split_shape(current);
    lemma_merge_clean(parts, dirs);
    lemma_merge_contains(parts, dirs);
    lemma_split_join(merge_dirs(parts, dirs));
}

/// Putting the same directories in front a second time changes nothing.
pub proof fn law_prepend_idempotent(current: Seq<char>, dirs: Seq<Seq<char>>)
    requires
        parts_clean(dirs),
    ensures
        prepended_path(prepended_path(current, dirs), dirs) == prepended_path(current, dirs),
{
    let parts = split_on_semicolons(current);
    lemma_split_shape(current);
    lemma_merge_clean(parts, dirs);
    lemma_merge_contains(parts, dirs);
    let merged = merge_dirs(parts, dirs);
    lemma_split_join(merged);
    lemma_merge_present(merged, dirs);
}

/// The parts of `s` between its semicolons.
fn split_semicolons(s: &str) -> (parts: Vec<String>)
    ensures
        texts(parts@) == split_on_semicolons(s@),
{
    let n = s.unicode_len();
    let mut parts: Vec<String> = Vec::new();
    let mut start: usize = 0;
    let mut i: usize = 0;
    assert(s@.subrange(0, 0) =~= Seq::<char>::empty());
    assert(texts(parts@).push(s@.subrange(0, 0)) =~= seq![Seq::<char>::empty()]);
    while i < n
        invariant
            n == s@.len(),
            start <= i <= n,
            texts(parts@).push(s@.subrange(start as int, i as int)) == split_on_semicolons(
                s@.subrange(0, i as int),
            ),
        decreases n - i,
    {
        let ghost pre = s@.subrange(0, i + 1);
        assert(pre.drop_last() =~= s@.subrange(0, i as int));
        assert(pre.last() == s@[i as int]);
        let c = s.get_char(i);
        if c == ';' {
            let part = s.substring_char(start, i).to_owned();
            parts.push(part);
            start = i + 1;
            assert(s@.subrange(start as int, i + 1) =~= Seq::<char>::empty());
            assert(texts(parts@).push(s@.subrange(start as int, i + 1)) =~= split_on_semicolons(pre));
        } else {
            assert(s@.subrange(start as int, i + 1) =~= s@.subrange(start as int, i as int).push(c));
            assert(texts(parts@).push(s@.subrange(start as int, i + 1)) =~= split_on_semicolons(pre));
        }
        i = i + 1;
    }
    let last = s.substring_char(start, n).to_owned();
    parts.push(last);
    assert(s@.subrange(0, n as int) =~= s@);
    assert(texts(parts@) =~= split_on_semicolons(s@));
    parts
}

/// Whether `x` is one of `parts`.
fn contains_text(parts: &Vec<String>, x: &str) -> (r: bool)
    ensures
        r == texts(parts@).contains(x@),
{
    let mut k: usize = 0;
    while k < parts.len()
        invariant
            k <= parts@.len(),
            forall|j: int| 0 <= j < k ==> parts@[j]@ != x@,
        decreases parts@.len() - k,
    {
        if str_eq(parts[k].as_str(), x) {
            assert(texts(parts@)[k as int] == x@);
            return true;
        }
        k = k + 1;
    }
    assert(!texts(parts@).contains(x@)) by {
        if texts(parts@).contains(x@) {
            let j = choose|j: int| 0 <= j < texts(parts@).len() && texts(parts@)[j] == x@;
            assert(parts@[j]@ == x@);
        }
    }
    false
}

/// The parts joined with semicolons between them.
fn join_semicolons(parts: &Vec<String>) -> (s: String)
    ensures
        s@ == join_with_semicolons(texts(parts@)),
{
    let mut s = String::new();
    let mut k: usize = 0;
    assert(texts(parts@).take(0) =~= Seq::<Seq<char>>::empty());
    while k < parts.len()
        invariant
            k <= parts@.len(),
            s@ == join_with_semicolons(texts(parts@).take(k as int)),
        decreases parts@.len() - k,
    {
        let ghost next = texts(parts@).take(k + 1);
        assert(next.drop_last() =~= texts(parts@).take(k as int));
        if k > 0 {
            s.append(";");
            proof {
                reveal_strlit(";");
            }
        }
        s.append(parts[k].as_str());
        k = k + 1;
        assert(s@ =~= join_with_semicolons(next)) by {
            if k == 1 {
                assert(next.len() == 1);
            }
        }
    }
    assert(texts(parts@).take(k as int) =~= texts(parts@));
    s
}

/// The search path `current_path` with `dirs` put in front: each directory
/// that is not an entry yet is put before the others, one after another, so
/// that the last one added comes first.
pub fn prepend_search_dirs(current_path: &str, dirs: &Vec<String>) -> (p: String)
    ensures
        p@ == prepended_path(current_path@, texts(dirs@)),
{
    let mut parts = split_semicolons(current_path);
    let mut k: usize = 0;
    assert(texts(dirs@).take(0) =~= Seq::<Seq<char>>::empty());
    while k < dirs.len()
        invariant
            k <= dirs@.len(),
            texts(parts@) == merge_dirs(split_on_semicolons(current_path@), texts(dirs@).take(k as int)),
        decreases dirs@.len() - k,
    {
        let ghost next = texts(dirs@).take(k + 1);
        assert(next.drop_last() =~= texts(dirs@).take(k as int));
        assert(next.last() == dirs@[k as int]@);
        if !contains_text(&parts, dirs[k].as_str()) {
            parts.insert(0, dirs[k].clone());
            assert(texts(parts@) =~= seq![dirs@[k as int]@] + merge_dirs(
                split_on_semicolons(current_path@),
                texts(dirs@).take(k as int),
            ));
        }
        k = k + 1;
    }
    assert(texts(dirs@).take(k as int) =~= texts(dirs@));
    join_semicolons(&parts)
}

/// The search path `current_path` with `dir` as its first entry, added
/// whether or not it is an entry already.
pub fn put_dir_first(dir: &str, current_path: &str) -> (p: String)
    ensures
        p@ == dir@ + seq![';'] + current_path@,
{
    proof {
        reveal_strlit(";");
    }
    concat3(dir, ";", current_path)
}

} // verus!
