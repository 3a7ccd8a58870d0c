//! Walking a whole table: one record after another, up to the end-of-table
//! record, the end of the buffer, or a record whose header does not fit.
use vstd::prelude::*;
use crate::header::{Handle, END_OF_TABLE, HEADER_SIZE};
use crate::parts::{record_fits, SMBiosStructParts};
use crate::strings::{
    find_terminator, lemma_find_terminator_bounds, lemma_find_terminator_extend,
    lemma_find_terminator_prefix, lemma_find_terminator_same_suffix, locate_terminator,
};

verus! {

/// How many bytes the record at the start of `d` takes: its formatted area,
/// its strings and the two zero bytes after them, or the rest of the buffer
/// when the strings are not closed before it ends. None when the header is cut
/// short or declares a length under four or past the buffer.
pub open spec fn record_size(d: Seq<u8>) -> Option<int> {
    if !record_fits(d) {
        None
    } else {
        match find_terminator(d, d[1] as int) {
            Some(p) => if d[1] <= p && p + 2 <= d.len() {
                Some(p + 2)
            } else {
                None
            },
            None => Some(d.len() as int),
        }
    }
}

/// The records of the table in `d`, each as its bytes, and, when the walk
/// stopped at a record whose header does not fit, how many bytes were left there.
pub open spec fn walk(d: Seq<u8>) -> (Seq<Seq<u8>>, Option<nat>)
    decreases d.len(),
{
    if d.len() == 0 {
        (Seq::empty(), None)
    } else {
        match record_size(d) {
            None => (Seq::empty(), Some(d.len())),
            Some(e) => {
                let rec = d.subrange(0, e);
                if d[0] == END_OF_TABLE {
                    (seq![rec], None)
                } else {
                    let rest = walk(d.subrange(e, d.len() as int));
                    (seq![rec] + rest.0, rest.1)
                }
            },
        }
    }
}

/// Whether `rec` is exactly one complete record, closed by its two zero bytes.
pub open spec fn is_record(rec: Seq<u8>) -> bool {
    &&& record_fits(rec)
    &&& find_terminator(rec, rec[1] as int) == Some(rec.len() - 2)
}

/// Bytes after a complete record do not change its size.
pub proof fn lemma_record_size_extend(rec: Seq<u8>, more: Seq<u8>)
    requires
        is_record(rec),
    ensures
        record_size(rec + more) == Some(rec.len() as int),
{
    let d = rec + more;
    lemma_find_terminator_bounds(rec, rec[1] as int);
    assert(rec =~= d.subrange(0, rec.len() as int));
    lemma_find_terminator_extend(rec, d, rec[1] as int);
}

/// A table of ordinary records followed by the end-of-table record yields
/// those records and that one, and nothing of the bytes after it.
pub proof fn lemma_walk_stops_at_end(recs: Seq<Seq<u8>>, end: Seq<u8>, tail: Seq<u8>)
    requires
        forall|i: int| 0 <= i < recs.len() ==> is_record(#[trigger] recs[i]) && recs[i][0] != END_OF_TABLE,
        is_record(end),
        end[0] == END_OF_TABLE,
    ensures
        walk(recs.flatten() + end + tail) == (recs.push(end), None::<nat>),
    decreases recs.len(),
{
    let d = recs.flatten() + end + tail;
    if recs.len() == 0 {
        assert(d =~= end + tail);
        lemma_record_size_extend(end, tail);
        assert(d.subrange(0, end.len() as int) =~= end);
        assert(recs.push(end) =~= seq![end]);
    } else {
        let r0 = recs[0];
        let rest = recs.drop_first();
        assert forall|i: int| 0 <= i < rest.len() implies is_record(#[trigger] rest[i]) && rest[i][0]
            != END_OF_TABLE by {
            assert(rest[i] == recs[i + 1]);
        }
        lemma_walk_stops_at_end(rest, end, tail);
        let x = rest.flatten() + end + tail;
        assert(d =~= r0 + x);
        lemma_record_size_extend(r0, x);
        assert(d.subrange(0, r0.len() as int) =~= r0);
        assert(d.subrange(r0.len() as int, d.len() as int) =~= x);
        assert(recs.push(end) =~= seq![r0] + rest.push(end));
    }
}

/// Any type code but the end-of-table one is walked alike: the record takes
/// the same bytes, and the walk goes on the same way after it.
pub proof fn lemma_walk_ignores_type(d: Seq<u8>, t: u8)
    requires
        d.len() > 0,
        d[0] != END_OF_TABLE,
        t != END_OF_TABLE,
    ensures
        record_size(d.update(0, t)) == record_size(d),
        walk(d.update(0, t)).1 == walk(d).1,
        walk(d.update(0, t)).0.len() == walk(d).0.len(),
        walk(d).0.len() > 0 ==> walk(d.update(0, t)).0[0] == walk(d).0[0].update(0, t)
            && walk(d.update(0, t)).0.drop_first() == walk(d).0.drop_first(),
{
    let d2 = d.update(0, t);
    if record_fits(d) {
        lemma_find_terminator_same_suffix(d2, d, d[1] as int);
    }
    if let Some(e) = record_size(d) {
        assert(d2.subrange(e, d2.len() as int) =~= d.subrange(e, d.len() as int));
        assert(d2.subrange(0, e) =~= d.subrange(0, e).update(0, t));
        assert(walk(d2).0.drop_first() =~= walk(d).0.drop_first());
    }
}

/// The walk stopped at a record whose header does not fit in the buffer.
#[derive(Clone, Copy, Debug, PartialEq, Eq, Structural)]
pub struct TruncatedTable {
    /// Where that record starts.
    pub offset: usize,
}

/// The records of a table, in the order in which they stand.
#[derive(Debug)]
pub struct SMBiosTable {
    pub structures: Vec<SMBiosStructParts>,
    /// Set when the walk stopped early; the records before stay valid.
    pub error: Option<TruncatedTable>,
}

/// The failure that a walk of `d` reports.
pub open spec fn walk_error(d: Seq<u8>) -> Option<TruncatedTable> {
    match walk(d).1 {
        Some(left) => Some(TruncatedTable { offset: (d.len() - left) as usize }),
        None => None,
    }
}

/// The size of the record at the start of `d`.
pub fn measure_record(d: &[u8]) -> (r: Option<usize>)
    ensures
        r matches Some(e) ==> record_size(d@) == Some(e as int),
        r is None ==> record_size(d@) is None,
{
    if d.len() < HEADER_SIZE || (d[1] as usize) < HEADER_SIZE || d[1] as usize > d.len() {
        return None;
    }
    proof {
        lemma_find_terminator_bounds(d@, d@[1] as int);
    }
    match locate_terminator(d, d[1] as usize) {
        Some(p) => Some(p + 2),
        None => Some(d.len()),
    }
}

impl SMBiosTable {
    /// Whether this is the decoded form of the table in `d`.
    pub open spec fn decodes(&self, d: Seq<u8>) -> bool {
        &&& self.structures@.len() == walk(d).0.len()
        &&& forall|i: int|
            0 <= i < self.structures@.len() ==> #[trigger] self.structures@[i].wf()
                && self.structures@[i].parts_of(walk(d).0[i])
        &&& self.error == walk_error(d)
    }

    /// Walks the table in `data`.
    pub fn parse(data: &[u8]) -> (r: SMBiosTable)
        ensures
            r.decodes(data@),
    {
        let n = data.len();
        let mut structures: Vec<SMBiosStructParts> = Vec::new();
        let ghost mut done: Seq<Seq<u8>> = Seq::empty();
        let mut c: usize = 0;
        assert(data@.subrange(0, n as int) =~= data@);
        assert(done + walk(data@).0 =~= walk(data@).0);
        loop
            invariant
                c <= n == data@.len(),
                structures@.len() == done.len(),
                forall|i: int|
                    0 <= i < structures@.len() ==> (#[trigger] structures@[i]).wf()
                        && structures@[i].parts_of(done[i]),
                walk(data@).0 == done + walk(data@.subrange(c as int, n as int)).0,
                walk(data@).1 == walk(data@.subrange(c as int, n as int)).1,
            decreases n - c,
        {
            let rest = &data[c..n];
            if c == n {
                let r = SMBiosTable { structures, error: None };
                assert(walk(data@).0 =~= done);
                return r;
            }
            match measure_record(rest) {
                None => {
                    let r = SMBiosTable { structures, error: Some(TruncatedTable { offset: c }) };
                    assert(walk(data@).0 =~= done);
                    return r;
                },
                Some(e) => {
                    let raw = &rest[0..e];
                    proof {
                        lemma_find_terminator_bounds(rest@, rest@[1] as int);
                        if find_terminator(rest@, rest@[1] as int) is Some {
                            lemma_find_terminator_prefix(
                                raw@,
                                rest@,
                                rest@[1] as int,
                                e - 2,
                            );
                        } else {
                            assert(raw@ =~= rest@);
                        }
                    }
                    let parts = SMBiosStructParts::new(raw);
                    structures.push(parts);
                    proof {
                        done = done.push(raw@);
                    }
                    if rest[0] == END_OF_TABLE {
                        let r = SMBiosTable { structures, error: None };
                        assert(walk(data@).0 =~= done);
                        return r;
                    }
                    assert(rest@.subrange(e as int, rest@.len() as int) =~= data@.subrange(
                        c + e,
                        n as int,
                    ));
                    c = c + e;
                },
            }
        }
    }

    /// The position of the first record with handle `handle`, if any.
    pub fn find_by_handle(&self, handle: Handle) -> (r: Option<usize>)
        ensures
            r matches Some(i) ==> i < self.structures@.len()
                && self.structures@[i as int].header.handle == handle && forall|j: int|
                0 <= j < i ==> #[trigger] self.structures@[j].header.handle != handle,
            r is None ==> forall|j: int|
                0 <= j < self.structures@.len() ==> #[trigger] self.structures@[j].header.handle
                    != handle,
    {
        let mut i: usize = 0;
        while i < self.structures.len()
            invariant
                i <= self.structures@.len(),
                forall|j: int| 0 <= j < i ==> #[trigger] self.structures@[j].header.handle != handle,
            decreases self.structures@.len() - i,
        {
            if self.structures[i].header.handle.0 == handle.0 {
                return Some(i);
            }
            i = i + 1;
        }
        None
    }
}

} // verus!
