use vstd::prelude::*;

use crate::platform::{list_separator, Platform};

verus! {

/// The character views of a list of owned strings.
pub open spec fn views(v: Seq<String>) -> Seq<Seq<char>> {
    v.map_values(|s: String| s@)
}

/// The entries joined by `sep`, with one separator between neighbours.
pub open spec fn join_spec(entries: Seq<Seq<char>>, sep: char) -> Seq<char>
    decreases entries.len(),
{
    if entries.len() == 0 {
        seq![]
    } else if entries.len() == 1 {
        entries[0]
    } else {
        join_spec(entries.drop_last(), sep) + seq![sep] + entries.last()
    }
}

/// Splitting state after reading `s`: the finished entries and the entry in progress.
pub open spec fn split_state(s: Seq<char>, sep: char) -> (Seq<Seq<char>>, Seq<char>)
    decreases s.len(),
{
    if s.len() == 0 {
        (seq![], seq![])
    } else {
        let (done, cur) = split_state(s.drop_last(), sep);
        if s.last() == sep {
            (done.push(cur), seq![])
        } else {
            (done, cur.push(s.last()))
        }
    }
}

/// The entries of `s` between occurrences of `sep`, empty ones included.
pub open spec fn split_spec(s: Seq<char>, sep: char) -> Seq<Seq<char>> {
    split_state(s, sep).0.push(split_state(s, sep).1)
}

/// Whether `e` can stand as one entry of the search variable on `p`.
pub open spec fn representable(e: Seq<char>, p: Platform) -> bool {
    &&& !e.contains(list_separator(p))
    &&& (p is Windows ==> !e.contains('"'))
}

pub open spec fn all_representable(entries: Seq<Seq<char>>, p: Platform) -> bool {
    forall|i: int| 0 <= i < entries.len() ==> representable(#[trigger] entries[i], p)
}

/// The entries of `s` split at the separator of `p`.
pub fn split_entries(s: &str, p: Platform) -> (r: Vec<String>)
    ensures
        views(r@) == split_spec(s@, list_separator(p)),
{
    let sep = if p.is_windows() {
        ';'
    } else {
        ':'
    };
    let n = s.unicode_len();
    let mut out: Vec<String> = Vec::new();
    let mut start: usize = 0;
    let mut i: usize = 0;
    while i < n
        invariant
            n == s@.len(),
            sep == list_separator(p),
            start <= i <= n,
            split_state(s@.take(i as int), sep) == (views(out@), s@.subrange(start as int, i as int)),
        decreases n - i,
    {
        let c = s.get_char(i);
        assert(s@.take(i + 1).drop_last() =~= s@.take(i as int));
        assert(s@.take(i + 1).last() == c);
        if c == sep {
            let piece = s.substring_char(start, i).to_owned();
            let ghost before = out@;
            out.push(piece);
            assert(views(out@) =~= views(before).push(piece@));
            start = i + 1;
            assert(s@.subrange(start as int, i + 1) =~= Seq::<char>::empty());
        } else {
            assert(s@.subrange(start as int, i + 1) =~= s@.subrange(start as int, i as int).push(c));
        }
        i = i + 1;
    }
    assert(s@.take(n as int) =~= s@);
    let last = s.substring_char(start, n).to_owned();
    let ghost before = out@;
    out.push(last);
    assert(views(out@) =~= views(before).push(last@));
    out
}

/// The one failure of rendering: an entry cannot be written into the search variable,
/// because it holds the list separator (or, on Windows, a double quote).
#[derive(Clone, Copy, Debug, PartialEq, Eq, Structural)]
pub struct EncodingError;

/// Whether `e` can stand as one entry of the search variable on `p`.
pub fn is_representable(e: &str, p: Platform) -> (r: bool)
    ensures
        r == representable(e@, p),
{
    let sep = if p.is_windows() {
        ';'
    } else {
        ':'
    };
    let windows = p.is_windows();
    let n = e.unicode_len();
    let mut i: usize = 0;
    while i < n
        invariant
            n == e@.len(),
            sep == list_separator(p),
            windows == (p is Windows),
            i <= n,
            forall|j: int| 0 <= j < i ==> e@[j] != sep && (windows ==> e@[j] != '"'),
        decreases n - i,
    {
        let c = e.get_char(i);
        if c == sep || (windows && c == '"') {
            assert(e@.contains(c));
            return false;
        }
        i = i + 1;
    }
    true
}

/// The entries joined by the separator of `p`; fails when one of them cannot stand in the result.
pub fn join_entries(entries: &Vec<String>, p: Platform) -> (r: Result<String, EncodingError>)
    ensures
        match r {
            Ok(s) => all_representable(views(entries@), p) && s@ == join_spec(
                views(entries@),
                list_separator(p),
            ),
            Err(_) => !all_representable(views(entries@), p),
        },
{
    let ghost all = views(entries@);
    let sep = p.list_separator_str();
    let mut out = String::new();
    let mut i: usize = 0;
    while i < entries.len()
        invariant
            all == views(entries@),
            sep@ == seq![list_separator(p)],
            i <= entries@.len(),
            all_representable(all.take(i as int), p),
            out@ == join_spec(all.take(i as int), list_separator(p)),
        decreases entries.len() - i,
    {
        let e = entries[i].as_str();
        assert(e@ == all[i as int]);
        if !is_representable(e, p) {
            return Err(EncodingError);
        }
        if i > 0 {
            out.append(sep);
        }
        out.append(e);
        assert(all.take(i + 1).drop_last() =~= all.take(i as int));
        i = i + 1;
    }
    assert(all.take(entries.len() as int) =~= all);
    Ok(out)
}

/// Reading characters free of the separator only extends the entry in progress.
proof fn lemma_split_extend(s: Seq<char>, t: Seq<char>, sep: char)
    requires
        !t.contains(sep),
    ensures
        split_state(s + t, sep) == (split_state(s, sep).0, split_state(s, sep).1 + t),
    decreases t.len(),
{
    if t.len() == 0 {
        assert(s + t =~= s);
        assert(split_state(s, sep).1 + t =~= split_state(s, sep).1);
    } else {
        let u = t.drop_last();
        assert(!u.contains(sep)) by {
            if u.contains(sep) {
                let k = choose|k: int| 0 <= k < u.len() && u[k] == sep;
                assert(t[k] == sep);
            }
        }
        lemma_split_extend(s, u, sep);
        assert((s + t).drop_last() =~= s + u);
        assert((s + t).last() == t.last());
        assert(t.last() != sep) by {
            assert(t[t.len() - 1] == t.last());
        }
        assert((split_state(s, sep).1 + u).push(t.last()) =~= split_state(s, sep).1 + t);
    }
}

/// Splitting a joined, non-empty list of separator-free entries gives the list back.
pub proof fn lemma_split_join(entries: Seq<Seq<char>>, sep: char)
    requires
        entries.len() > 0,
        forall|i: int| 0 <= i < entries.len() ==> !(#[trigger] entries[i]).contains(sep),
    ensures
        split_spec(join_spec(entries, sep), sep) == entries,
    decreases entries.len(),
{
    lemma_split_state_join(entries, sep);
    assert(entries.drop_last().push(entries.last()) =~= entries);
}

proof fn lemma_split_state_join(entries: Seq<Seq<char>>, sep: char)
    requires
        entries.len() > 0,
        forall|i: int| 0 <= i < entries.len() ==> !(#[trigger] entries[i]).contains(sep),
    ensures
        split_state(join_spec(entries, sep), sep) == (entries.drop_last(), entries.last()),
    decreases entries.len(),
{
    let x = entries.last();
    assert(!x.contains(sep)) by {
        assert(entries[entries.len() - 1] == x);
    }
    if entries.len() == 1 {
        lemma_split_extend(seq![], x, sep);
        assert(Seq::<char>::empty() + x =~= x);
        assert(entries.drop_last() =~= Seq::<Seq<char>>::empty());
        assert(split_state(Seq::<char>::empty(), sep) == (
            Seq::<Seq<char>>::empty(),
            Seq::<char>::empty(),
        ));
    } else {
        let front = entries.drop_last();
        assert forall|i: int| 0 <= i < front.len() implies !(#[trigger] front[i]).contains(sep) by {
            assert(front[i] == entries[i]);
        }
        lemma_split_state_join(front, sep);
        let j = join_spec(front, sep);
        let js = j.push(sep);
        assert(js.drop_last() =~= j);
        assert(split_state(js, sep) == (front.drop_last().push(front.last()), Seq::<char>::empty()));
        assert(front.drop_last().push(front.last()) =~= front);
        assert(j + seq![sep] =~= js);
        lemma_split_extend(js, x, sep);
        assert(Seq::<char>::empty() + x =~= x);
    }
}

} // verus!
