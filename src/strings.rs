//! The string table that trails a record's formatted area.
use vstd::prelude::*;

verus! {

/// The first position `p >= i` at which two zero bytes follow each other.
pub open spec fn find_terminator(s: Seq<u8>, i: int) -> Option<int>
    decreases s.len() - i,
{
    if i < 0 || i + 1 >= s.len() {
        None
    } else if s[i] == 0 && s[i + 1] == 0 {
        Some(i)
    } else {
        find_terminator(s, i + 1)
    }
}

/// The zero-separated pieces of `s`, always at least one (the last may be empty).
pub open spec fn split_pieces(s: Seq<u8>) -> Seq<Seq<u8>>
    decreases s.len(),
{
    if s.len() == 0 {
        seq![Seq::<u8>::empty()]
    } else {
        let init = split_pieces(s.drop_last());
        if s.last() == 0 {
            init.push(Seq::<u8>::empty())
        } else {
            init.update(init.len() - 1, init.last().push(s.last()))
        }
    }
}

/// The strings of a string area: none when it is empty, else its zero-separated pieces.
pub open spec fn split_strings(s: Seq<u8>) -> Seq<Seq<u8>> {
    if s.len() == 0 {
        Seq::empty()
    } else {
        split_pieces(s)
    }
}

/// The contents of a list of byte strings.
pub open spec fn byte_strings(v: Seq<Vec<u8>>) -> Seq<Seq<u8>> {
    v.map_values(|x: Vec<u8>| x@)
}

/// The `k`-th string (counting from 1) of `strings`; none for 0 or past the end.
pub open spec fn string_at(strings: Seq<Seq<u8>>, k: int) -> Option<Seq<u8>> {
    if 1 <= k <= strings.len() {
        Some(strings[k - 1])
    } else {
        None
    }
}

pub proof fn lemma_split_pieces_nonempty(s: Seq<u8>)
    ensures
        split_pieces(s).len() >= 1,
    decreases s.len(),
{
    if s.len() > 0 {
        lemma_split_pieces_nonempty(s.drop_last());
    }
}

/// A search that finds a terminator inside a prefix finds the same one in the whole.
pub proof fn lemma_find_terminator_extend(s: Seq<u8>, t: Seq<u8>, i: int)
    requires
        find_terminator(s, i) is Some,
        s.len() <= t.len(),
        s =~= t.subrange(0, s.len() as int),
    ensures
        find_terminator(t, i) == find_terminator(s, i),
    decreases s.len() - i,
{
    if !(s[i] == 0 && s[i + 1] == 0) {
        lemma_find_terminator_extend(s, t, i + 1);
    }
}

/// A terminator found in `t` well inside a prefix `s` of it is found in `s` too.
pub proof fn lemma_find_terminator_prefix(s: Seq<u8>, t: Seq<u8>, i: int, p: int)
    requires
        find_terminator(t, i) == Some(p),
        p + 2 <= s.len() <= t.len(),
        s =~= t.subrange(0, s.len() as int),
    ensures
        find_terminator(s, i) == Some(p),
    decreases p - i,
{
    if !(t[i] == 0 && t[i + 1] == 0) {
        lemma_find_terminator_bounds(t, i + 1);
        lemma_find_terminator_prefix(s, t, i + 1, p);
    }
}

/// The search only looks at the bytes from its start on.
pub proof fn lemma_find_terminator_same_suffix(s: Seq<u8>, t: Seq<u8>, i: int)
    requires
        0 <= i,
        s.len() == t.len(),
        forall|j: int| i <= j < s.len() ==> s[j] == t[j],
    ensures
        find_terminator(s, i) == find_terminator(t, i),
    decreases s.len() - i,
{
    if i + 1 < s.len() && !(s[i] == 0 && s[i + 1] == 0) {
        lemma_find_terminator_same_suffix(s, t, i + 1);
    }
}

/// A terminator that the search finds lies at or after its start, with both bytes inside.
pub proof fn lemma_find_terminator_bounds(s: Seq<u8>, i: int)
    ensures
        find_terminator(s, i) matches Some(p) ==> i <= p && p + 1 < s.len() && s[p] == 0 && s[p
            + 1] == 0,
    decreases s.len() - i,
{
    if i >= 0 && i + 1 < s.len() && !(s[i] == 0 && s[i + 1] == 0) {
        lemma_find_terminator_bounds(s, i + 1);
    }
}

/// Finds the first pair of zero bytes at or after `start`.
pub fn locate_terminator(data: &[u8], start: usize) -> (r: Option<usize>)
    ensures
        r matches Some(p) ==> find_terminator(data@, start as int) == Some(p as int) && start <= p
            && p + 1 < data@.len(),
        r is None ==> find_terminator(data@, start as int) is None,
{
    let n = data.len();
    let mut i = start;
    while n > 0 && i < n - 1
        invariant
            n == data@.len(),
            start <= i,
            find_terminator(data@, start as int) == find_terminator(data@, i as int),
        decreases n - i,
    {
        if data[i] == 0 && data[i + 1] == 0 {
            return Some(i);
        }
        i = i + 1;
    }
    None
}

/// Splits `data[start..end]` into its zero-separated strings.
pub fn split_string_area(data: &[u8], start: usize, end: usize) -> (r: Vec<Vec<u8>>)
    requires
        start <= end <= data@.len(),
    ensures
        byte_strings(r@) == split_strings(data@.subrange(start as int, end as int)),
{
    let ghost area = data@.subrange(start as int, end as int);
    let mut done: Vec<Vec<u8>> = Vec::new();
    if start == end {
        assert(byte_strings(done@) =~= split_strings(area));
        return done;
    }
    let mut cur: Vec<u8> = Vec::new();
    let mut i = start;
    while i < end
        invariant
            start <= i <= end <= data@.len(),
            area == data@.subrange(start as int, end as int),
            byte_strings(done@).push(cur@) == split_pieces(area.subrange(0, i - start)),
        decreases end - i,
    {
        let ghost before = area.subrange(0, i - start);
        let ghost after = area.subrange(0, i + 1 - start);
        assert(after.drop_last() =~= before);
        assert(after.last() == data@[i as int]);
        proof {
            lemma_split_pieces_nonempty(before);
        }
        if data[i] == 0 {
            let piece = cur;
            done.push(piece);
            cur = Vec::new();
            assert(byte_strings(done@).push(cur@) =~= split_pieces(after));
        } else {
            let ghost old_cur = cur@;
            cur.push(data[i]);
            assert(byte_strings(done@).push(old_cur).update(byte_strings(done@).len() as int, cur@)
                =~= byte_strings(done@).push(cur@));
        }
        i = i + 1;
    }
    assert(area.subrange(0, end - start) =~= area);
    let ghost pieces = byte_strings(done@).push(cur@);
    done.push(cur);
    assert(byte_strings(done@) =~= pieces);
    done
}

} // verus!
