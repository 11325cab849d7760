//! Two-way ascending merge of two keyed sequences, bounded below by a cursor
//! and cut to a page.

use vstd::prelude::*;

verus! {

/// An entity that is listed under an integer key.
pub trait Keyed {
    /// The key under which the entity is listed.
    spec fn key_spec(&self) -> u64;

    fn key(&self) -> (k: u64)
        ensures
            k == self.key_spec(),
    ;
}

impl Keyed for u64 {
    open spec fn key_spec(&self) -> u64 {
        *self
    }

    fn key(&self) -> (k: u64) {
        *self
    }
}

/// Number of entries on a full page.
pub const PAGE_SIZE: usize = 25;

/// Whether `key` lies strictly after the cursor. Without a cursor every key does.
pub open spec fn beyond(key: u64, after: Option<u64>) -> bool {
    match after {
        Some(c) => key > c,
        None => true,
    }
}

/// The first position at or after `k` whose key lies beyond the cursor, or the
/// length of `s` where there is none. In an ascending sequence this is where a
/// scan with the cursor as exclusive lower bound starts.
pub open spec fn scan_start<T: Keyed>(s: Seq<T>, after: Option<u64>, k: int) -> int
    decreases s.len() - k,
{
    if k < 0 || k >= s.len() {
        s.len() as int
    } else if beyond(s[k].key_spec(), after) {
        k
    } else {
        scan_start(s, after, k + 1)
    }
}

/// The merge of `a` from position `i` on with `b` from position `j` on: the
/// head with the lesser key goes first, and on equal keys the head of `a`.
pub open spec fn merge_from<T: Keyed>(a: Seq<T>, b: Seq<T>, i: int, j: int) -> Seq<T>
    decreases
        (if i < a.len() { a.len() - i } else { 0 }) + (if j < b.len() { b.len() - j } else { 0 }),
{
    if i < 0 || j < 0 {
        Seq::empty()
    } else if i < a.len() && (j >= b.len() || a[i].key_spec() <= b[j].key_spec()) {
        seq![a[i]] + merge_from(a, b, i + 1, j)
    } else if j < b.len() {
        seq![b[j]] + merge_from(a, b, i, j + 1)
    } else {
        Seq::empty()
    }
}

/// The first `limit` entries of `s`, or all of `s` where it has fewer.
pub open spec fn first_n<T>(s: Seq<T>, limit: int) -> Seq<T> {
    if limit <= 0 {
        Seq::empty()
    } else if s.len() <= limit {
        s
    } else {
        s.subrange(0, limit)
    }
}

/// One page of the merged listing: both sources start beyond the cursor, are
/// merged, and the merge is cut to `limit` entries.
pub open spec fn page_of<T: Keyed>(a: Seq<T>, b: Seq<T>, after: Option<u64>, limit: int) -> Seq<
    T,
> {
    first_n(merge_from(a, b, scan_start(a, after, 0), scan_start(b, after, 0)), limit)
}

/// What a vector of references refers to.
pub open spec fn targets<T>(refs: Seq<&T>) -> Seq<T> {
    Seq::new(refs.len(), |k: int| *refs[k])
}

/// Whether the keys of `s` never descend.
pub open spec fn ascending<T: Keyed>(s: Seq<T>) -> bool {
    forall|x: int, y: int| 0 <= x <= y < s.len() ==> s[x].key_spec() <= s[y].key_spec()
}

/// Where a scan starts, the key lies beyond the cursor.
pub proof fn lemma_scan_start<T: Keyed>(s: Seq<T>, after: Option<u64>, k: int)
    requires
        0 <= k <= s.len(),
    ensures
        k <= scan_start(s, after, k) <= s.len(),
        scan_start(s, after, k) < s.len() ==> beyond(s[scan_start(s, after, k)].key_spec(), after),
    decreases s.len() - k,
{
    if k < s.len() && !beyond(s[k].key_spec(), after) {
        lemma_scan_start(s, after, k + 1);
    }
}

/// The merge of two ascending listings is ascending, holds every entry of
/// both from the two positions on, and has no key below both heads.
pub proof fn lemma_merge_ascending<T: Keyed>(a: Seq<T>, b: Seq<T>, i: int, j: int)
    requires
        ascending(a),
        ascending(b),
        0 <= i <= a.len(),
        0 <= j <= b.len(),
    ensures
        ascending(merge_from(a, b, i, j)),
        merge_from(a, b, i, j).len() == (a.len() - i) + (b.len() - j),
        forall|k: int|
            0 <= k < merge_from(a, b, i, j).len() ==> {
                let key = (#[trigger] merge_from(a, b, i, j)[k]).key_spec();
                (i < a.len() && key >= a[i].key_spec()) || (j < b.len() && key >= b[j].key_spec())
            },
    decreases (a.len() - i) + (b.len() - j),
{
    let m = merge_from(a, b, i, j);
    if i < a.len() && (j >= b.len() || a[i].key_spec() <= b[j].key_spec()) {
        lemma_merge_ascending(a, b, i + 1, j);
        let rest = merge_from(a, b, i + 1, j);
        assert(m =~= seq![a[i]] + rest);
        assert forall|k: int| 0 <= k < m.len() implies (#[trigger] m[k]).key_spec()
            >= a[i].key_spec() by {
            if k > 0 {
                assert(m[k] == rest[k - 1]);
            }
        }
        assert forall|x: int, y: int| 0 <= x <= y < m.len() implies m[x].key_spec()
            <= m[y].key_spec() by {
            if x > 0 {
                assert(m[x] == rest[x - 1]);
                assert(m[y] == rest[y - 1]);
            }
        }
    } else if j < b.len() {
        lemma_merge_ascending(a, b, i, j + 1);
        let rest = merge_from(a, b, i, j + 1);
        assert(m =~= seq![b[j]] + rest);
        assert forall|k: int| 0 <= k < m.len() implies (#[trigger] m[k]).key_spec()
            >= b[j].key_spec() by {
            if k > 0 {
                assert(m[k] == rest[k - 1]);
            }
        }
        assert forall|x: int, y: int| 0 <= x <= y < m.len() implies m[x].key_spec()
            <= m[y].key_spec() by {
            if x > 0 {
                assert(m[x] == rest[x - 1]);
                assert(m[y] == rest[y - 1]);
            }
        }
    }
}

/// A page made from two ascending listings is ascending, every key on it lies
/// beyond the cursor, and it is full unless the listings run out.
pub proof fn lemma_page_ascending<T: Keyed>(a: Seq<T>, b: Seq<T>, after: Option<u64>, limit: int)
    requires
        ascending(a),
        ascending(b),
    ensures
        ascending(page_of(a, b, after, limit)),
        forall|k: int|
            0 <= k < page_of(a, b, after, limit).len() ==> beyond(
                (#[trigger] page_of(a, b, after, limit)[k]).key_spec(),
                after,
            ),
        page_of(a, b, after, limit).len() <= if limit < 0 { 0 } else { limit },
{
    lemma_scan_start(a, after, 0);
    lemma_scan_start(b, after, 0);
    let i = scan_start(a, after, 0);
    let j = scan_start(b, after, 0);
    lemma_merge_ascending(a, b, i, j);
    let m = merge_from(a, b, i, j);
    let page = page_of(a, b, after, limit);
    assert forall|k: int| 0 <= k < page.len() implies page[k] == m[k] by {}
    assert forall|k: int| 0 <= k < page.len() implies beyond(
        (#[trigger] page[k]).key_spec(),
        after,
    ) by {
        assert(page[k] == m[k]);
    }
    assert forall|x: int, y: int| 0 <= x <= y < page.len() implies page[x].key_spec()
        <= page[y].key_spec() by {
        assert(page[x] == m[x]);
        assert(page[y] == m[y]);
    }
}

/// The position at which a scan of `s` with the cursor as exclusive lower
/// bound starts.
pub fn start_after<T: Keyed>(s: &Vec<&T>, after: Option<u64>) -> (k: usize)
    ensures
        k == scan_start(targets(s@), after, 0),
        k <= s.len(),
{
    let mut k: usize = 0;
    while k < s.len()
        invariant
            k <= s.len(),
            scan_start(targets(s@), after, 0) == scan_start(targets(s@), after, k as int),
        decreases s.len() - k,
    {
        let key: u64 = s[k].key();
        let is_beyond = match after {
            Some(c) => key > c,
            None => true,
        };
        if is_beyond {
            return k;
        }
        k = k + 1;
    }
    k
}

/// Merges two listings into one page of at most `limit` entries, all from
/// where a scan beyond the cursor starts. On equal keys the entry of `a` comes
/// first.
pub fn merge_page<'a, T: Keyed>(
    a: &Vec<&'a T>,
    b: &Vec<&'a T>,
    after: Option<u64>,
    limit: usize,
) -> (page: Vec<&'a T>)
    ensures
        targets(page@) == page_of(targets(a@), targets(b@), after, limit as int),
        page@.len() <= limit,
{
    let i0: usize = start_after(a, after);
    let j0: usize = start_after(b, after);
    let mut i: usize = i0;
    let mut j: usize = j0;
    let mut page: Vec<&'a T> = Vec::new();
    let ghost ta = targets(a@);
    let ghost tb = targets(b@);
    let ghost full = merge_from(ta, tb, i0 as int, j0 as int);
    while page.len() < limit && (i < a.len() || j < b.len())
        invariant
            i <= a.len(),
            j <= b.len(),
            ta == targets(a@),
            tb == targets(b@),
            page@.len() <= limit,
            full == targets(page@) + merge_from(ta, tb, i as int, j as int),
        decreases (a.len() - i) + (b.len() - j),
    {
        let ghost before = targets(page@);
        let take_first = if i < a.len() {
            if j < b.len() {
                a[i].key() <= b[j].key()
            } else {
                true
            }
        } else {
            false
        };
        if take_first {
            page.push(a[i]);
            proof {
                assert(targets(page@) =~= before + seq![ta[i as int]]);
                assert(full =~= targets(page@) + merge_from(ta, tb, i as int + 1, j as int));
            }
            i = i + 1;
        } else {
            page.push(b[j]);
            proof {
                assert(targets(page@) =~= before + seq![tb[j as int]]);
                assert(full =~= targets(page@) + merge_from(ta, tb, i as int, j as int + 1));
            }
            j = j + 1;
        }
    }
    proof {
        let rest = merge_from(ta, tb, i as int, j as int);
        if page@.len() < limit {
            assert(rest =~= Seq::<T>::empty());
            assert(full =~= targets(page@));
        } else {
            assert(full.subrange(0, limit as int) =~= targets(page@));
            assert(first_n(full, limit as int) =~= targets(page@));
        }
    }
    page
}

/// The cursor to hand back for the page after this one: the key of the last
/// entry, or nothing where the page is empty.
pub fn next_cursor<T: Keyed>(page: &Vec<&T>) -> (cursor: Option<u64>)
    ensures
        page@.len() == 0 ==> cursor.is_none(),
        page@.len() > 0 ==> cursor == Some(page@[page@.len() - 1].key_spec()),
{
    if page.len() == 0 {
        None
    } else {
        Some(page[page.len() - 1].key())
    }
}

} // verus!
