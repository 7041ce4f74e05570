//! Bounded, rank-ordered scan-result cache.
//!
//! The cache holds the strongest peers seen during one scan pass, descending
//! by signal strength, in a fixed backing store of `MAX_SCAN_RESULTS` slots.
//! It is rebuilt from scratch on every scan and never grows.

use vstd::prelude::*;

use arrayvec::ArrayVec;

use crate::Bssid;

verus! {

/// Number of peers the scan-result cache can hold.
pub const MAX_SCAN_RESULTS: usize = 4;

/// A radio peer discovered during one scan pass. Created transiently while
/// the scan drains and copied into the cache if competitive; never mutated.
#[derive(Clone, Copy, Debug)]
pub struct ScanEntry {
    /// Physical address of the peer.
    pub bssid: Bssid,
    /// Signal strength in dBm (larger is stronger).
    pub rssi: i8,
}

#[verifier::external_type_specification]
#[verifier::external_body]
#[verifier::reject_recursive_types(T)]
pub struct ExArrayVec<T, const CAP: usize>(ArrayVec<T, CAP>);

/// The records the backing store holds, in order.
pub uninterp spec fn scan_buf(v: ArrayVec<ScanEntry, MAX_SCAN_RESULTS>) -> Seq<ScanEntry>;

/// Relies on arrayvec's ArrayVec::new: a fresh vector holds no elements.
#[verifier::external_body]
fn av_new() -> (v: ArrayVec<ScanEntry, MAX_SCAN_RESULTS>)
    ensures
        scan_buf(v) == Seq::<ScanEntry>::empty(),
{
    ArrayVec::new()
}

/// Relies on arrayvec's ArrayVec::len: the number of elements held.
#[verifier::external_body]
fn av_len(v: &ArrayVec<ScanEntry, MAX_SCAN_RESULTS>) -> (n: usize)
    ensures
        n == scan_buf(*v).len(),
{
    v.len()
}

/// Relies on arrayvec's ArrayVec::push: appends the element at the end. It
/// panics on a full vector, which the bound rules out.
#[verifier::external_body]
fn av_push(v: &mut ArrayVec<ScanEntry, MAX_SCAN_RESULTS>, entry: ScanEntry)
    requires
        scan_buf(*old(v)).len() < MAX_SCAN_RESULTS,
    ensures
        scan_buf(*final(v)) == scan_buf(*old(v)).push(entry),
    no_unwind
{
    v.push(entry)
}

/// Relies on arrayvec's ArrayVec::pop: removes and returns the last element
/// of a non-empty vector, and returns `None` on an empty one.
#[verifier::external_body]
fn av_pop(v: &mut ArrayVec<ScanEntry, MAX_SCAN_RESULTS>) -> (r: Option<ScanEntry>)
    ensures
        scan_buf(*old(v)).len() == 0 ==> r is None && scan_buf(*final(v)) == scan_buf(*old(v)),
        scan_buf(*old(v)).len() > 0 ==> r == Some(scan_buf(*old(v)).last())
            && scan_buf(*final(v)) == scan_buf(*old(v)).drop_last(),
    no_unwind
{
    v.pop()
}

/// Relies on arrayvec's ArrayVec::insert: places the element at the index
/// and shifts the rest up. It panics on a full vector or an index past the
/// end, which the bounds rule out.
#[verifier::external_body]
fn av_insert(v: &mut ArrayVec<ScanEntry, MAX_SCAN_RESULTS>, index: usize, entry: ScanEntry)
    requires
        scan_buf(*old(v)).len() < MAX_SCAN_RESULTS,
        index <= scan_buf(*old(v)).len(),
    ensures
        scan_buf(*final(v)) == scan_buf(*old(v)).insert(index as int, entry),
    no_unwind
{
    v.insert(index, entry)
}

/// Relies on arrayvec's ArrayVec::as_slice: the elements in order, read here
/// at the given index.
#[verifier::external_body]
fn av_get(v: &ArrayVec<ScanEntry, MAX_SCAN_RESULTS>, index: usize) -> (entry: ScanEntry)
    requires
        index < scan_buf(*v).len(),
    ensures
        entry == scan_buf(*v)[index as int],
{
    v.as_slice()[index]
}

/// Descending order by signal strength.
pub open spec fn sorted_desc(s: Seq<ScanEntry>) -> bool {
    forall|i: int, j: int| 0 <= i <= j < s.len() ==> s[i].rssi >= s[j].rssi
}

/// Insertion of a record into a descending sequence, before the first
/// strictly weaker record, with no capacity bound applied.
pub open spec fn seq_insert_desc(s: Seq<ScanEntry>, e: ScanEntry) -> Seq<ScanEntry>
    decreases s.len(),
{
    if s.len() == 0 {
        seq![e]
    } else if s[0].rssi < e.rssi {
        seq![e] + s
    } else {
        seq![s[0]] + seq_insert_desc(s.drop_first(), e)
    }
}

/// The first `n` records where the sequence holds more, the whole of it
/// otherwise.
pub open spec fn cap_to(s: Seq<ScanEntry>, n: int) -> Seq<ScanEntry> {
    if s.len() <= n {
        s
    } else {
        s.subrange(0, n)
    }
}

/// What one insert call leaves in the cache: ranked insertion bounded at
/// capacity, so that a record weaker than all of a full cache is dropped.
pub open spec fn ranked_insert(s: Seq<ScanEntry>, e: ScanEntry) -> Seq<ScanEntry> {
    cap_to(seq_insert_desc(s, e), MAX_SCAN_RESULTS as int)
}

/// The cache contents after draining a whole scan, record by record, into a
/// fresh cache.
pub open spec fn ranked_of(entries: Seq<ScanEntry>) -> Seq<ScanEntry>
    decreases entries.len(),
{
    if entries.len() == 0 {
        Seq::empty()
    } else {
        ranked_insert(ranked_of(entries.drop_last()), entries.last())
    }
}

/// Fixed-capacity cache of the strongest peers seen during one scan,
/// descending by signal strength.
pub struct ScanResults {
    results: ArrayVec<ScanEntry, MAX_SCAN_RESULTS>,
}

impl View for ScanResults {
    type V = Seq<ScanEntry>;

    closed spec fn view(&self) -> Seq<ScanEntry> {
        scan_buf(self.results)
    }
}

impl ScanResults {
    /// Every cache is sorted descending by signal strength and holds at most
    /// `MAX_SCAN_RESULTS` records.
    #[verifier::type_invariant]
    pub open spec fn ranked(self) -> bool {
        sorted_desc(self@) && self@.len() <= MAX_SCAN_RESULTS
    }

    /// Empty cache.
    pub fn new() -> (r: ScanResults)
        ensures
            r@ == Seq::<ScanEntry>::empty(),
    {
        ScanResults { results: av_new() }
    }

    /// Number of records held.
    pub fn len(&self) -> (n: usize)
        ensures
            n == self@.len(),
    {
        av_len(&self.results)
    }

    /// The record at the given rank, strongest first.
    pub fn get(&self, index: usize) -> (entry: ScanEntry)
        requires
            index < self@.len(),
        ensures
            entry == self@[index as int],
    {
        av_get(&self.results, index)
    }

    /// Adds the record at its rank. A record weaker than or equal to all
    /// held records is appended only while the cache is below capacity; a
    /// stronger one takes its rank and, at capacity, evicts the weakest.
    pub fn push(&mut self, entry: ScanEntry)
        ensures
            final(self)@ == ranked_insert(old(self)@, entry),
    {
        proof {
            use_type_invariant(&*self);
        }
        let ghost s = self@;
        let len = av_len(&self.results);
        if len == 0 {
            av_push(&mut self.results, entry);
            proof {
                assert(self@ =~= ranked_insert(s, entry));
            }
            return;
        }
        let mut i: usize = 0;
        while i < len
            invariant
                0 <= i <= len,
                len == s.len(),
                s == old(self)@,
                self@ == s,
                sorted_desc(s),
                s.len() <= MAX_SCAN_RESULTS,
                forall|j: int| 0 <= j < i ==> s[j].rssi >= entry.rssi,
            decreases len - i,
        {
            let cur = av_get(&self.results, i);
            if cur.rssi < entry.rssi {
                if av_len(&self.results) == MAX_SCAN_RESULTS {
                    av_pop(&mut self.results);
                }
                av_insert(&mut self.results, i, entry);
                proof {
                    lemma_insert_at_found(s, entry, i as int);
                    assert(self@ =~= ranked_insert(s, entry));
                }
                return;
            }
            i += 1;
        }
        if len < MAX_SCAN_RESULTS {
            av_push(&mut self.results, entry);
        }
        proof {
            lemma_insert_appends(s, entry);
            assert(self@ =~= ranked_insert(s, entry));
        }
    }

    /// Fresh cache holding the ranked drain of one whole scan.
    pub fn from_scan(entries: &Vec<ScanEntry>) -> (r: ScanResults)
        ensures
            r@ == ranked_of(entries@),
    {
        let mut r = ScanResults::new();
        let n = entries.len();
        let mut k: usize = 0;
        while k < n
            invariant
                0 <= k <= n,
                n == entries@.len(),
                r@ == ranked_of(entries@.take(k as int)),
            decreases n - k,
        {
            r.push(entries[k]);
            proof {
                assert(entries@.take(k as int + 1).drop_last() =~= entries@.take(k as int));
                assert(entries@.take(k as int + 1).last() == entries@[k as int]);
            }
            k += 1;
        }
        proof {
            assert(entries@.take(n as int) =~= entries@);
        }
        r
    }
}

/// Where the new record is strictly stronger than the record at `i` and no
/// earlier one, the unbounded insertion places it exactly at `i`.
proof fn lemma_insert_at_found(s: Seq<ScanEntry>, e: ScanEntry, i: int)
    requires
        0 <= i < s.len(),
        forall|j: int| 0 <= j < i ==> s[j].rssi >= e.rssi,
        s[i].rssi < e.rssi,
    ensures
        seq_insert_desc(s, e) =~= s.subrange(0, i) + seq![e] + s.subrange(i, s.len() as int),
    decreases i,
{
    if i == 0 {
    } else {
        lemma_insert_at_found(s.drop_first(), e, i - 1);
        assert(seq_insert_desc(s, e) =~= seq![s[0]] + seq_insert_desc(s.drop_first(), e));
        assert(s.drop_first().subrange(0, i - 1) =~= s.subrange(1, i));
        assert(s.drop_first().subrange(i - 1, s.drop_first().len() as int)
            =~= s.subrange(i, s.len() as int));
    }
}

/// Where the new record is weaker than or equal to every held record, the
/// unbounded insertion appends it.
proof fn lemma_insert_appends(s: Seq<ScanEntry>, e: ScanEntry)
    requires
        forall|j: int| 0 <= j < s.len() ==> s[j].rssi >= e.rssi,
    ensures
        seq_insert_desc(s, e) =~= s + seq![e],
    decreases s.len(),
{
    if s.len() == 0 {
    } else {
        lemma_insert_appends(s.drop_first(), e);
        assert(seq_insert_desc(s, e) =~= seq![s[0]] + seq_insert_desc(s.drop_first(), e));
    }
}

/// The unbounded insertion grows the sequence by exactly one record.
proof fn lemma_insert_len(s: Seq<ScanEntry>, e: ScanEntry)
    ensures
        seq_insert_desc(s, e).len() == s.len() + 1,
    decreases s.len(),
{
    if s.len() == 0 {
    } else if s[0].rssi < e.rssi {
    } else {
        lemma_insert_len(s.drop_first(), e);
    }
}

/// The unbounded insertion of a record into a descending sequence leaves a
/// descending sequence.
proof fn lemma_insert_sorted(s: Seq<ScanEntry>, e: ScanEntry)
    requires
        sorted_desc(s),
    ensures
        sorted_desc(seq_insert_desc(s, e)),
    decreases s.len(),
{
    if s.len() == 0 {
    } else if s[0].rssi < e.rssi {
    } else {
        assert(sorted_desc(s.drop_first()));
        lemma_insert_sorted(s.drop_first(), e);
        lemma_insert_len(s.drop_first(), e);
        let t = seq![s[0]] + seq_insert_desc(s.drop_first(), e);
        assert(seq_insert_desc(s, e) == t);
        assert forall|i: int, j: int| 0 <= i <= j < t.len() implies t[i].rssi >= t[j].rssi by {
            if i == 0 && j > 0 {
                let u = seq_insert_desc(s.drop_first(), e);
                assert(t[j] == u[j - 1]);
                if s.drop_first().len() == 0 {
                    assert(u =~= seq![e]);
                } else if s.drop_first()[0].rssi < e.rssi {
                    assert(u =~= seq![e] + s.drop_first());
                    if j - 1 > 0 {
                        assert(u[j - 1] == s.drop_first()[j - 2]);
                    }
                } else {
                    assert(u[0] == s.drop_first()[0]);
                    assert(u[j - 1].rssi <= u[0].rssi);
                }
            }
        }
    }
}

/// A leading part of a descending sequence is descending.
proof fn lemma_cap_sorted(s: Seq<ScanEntry>, n: int)
    requires
        sorted_desc(s),
        0 <= n,
    ensures
        sorted_desc(cap_to(s, n)),
{
}

/// One insert call of the cache policy keeps the cache descending and within
/// capacity.
pub proof fn lemma_ranked_insert_invariant(s: Seq<ScanEntry>, e: ScanEntry)
    requires
        sorted_desc(s),
    ensures
        sorted_desc(ranked_insert(s, e)),
        ranked_insert(s, e).len() <= MAX_SCAN_RESULTS,
    decreases s.len(),
{
    lemma_insert_sorted(s, e);
    lemma_cap_sorted(seq_insert_desc(s, e), MAX_SCAN_RESULTS as int);
}

/// After every sequence of insert calls into a fresh cache, the cache is
/// sorted descending by signal strength and holds at most
/// `MAX_SCAN_RESULTS` records.
pub proof fn lemma_ranking_invariant(entries: Seq<ScanEntry>)
    ensures
        sorted_desc(ranked_of(entries)),
        ranked_of(entries).len() <= MAX_SCAN_RESULTS,
    decreases entries.len(),
{
    if entries.len() == 0 {
    } else {
        lemma_ranking_invariant(entries.drop_last());
        lemma_ranked_insert_invariant(ranked_of(entries.drop_last()), entries.last());
    }
}

/// Inserting a record weaker than every record of a full cache leaves the
/// cache unchanged.
pub proof fn lemma_weaker_record_dropped(s: Seq<ScanEntry>, e: ScanEntry)
    requires
        s.len() == MAX_SCAN_RESULTS,
        forall|j: int| 0 <= j < s.len() ==> e.rssi < s[j].rssi,
    ensures
        ranked_insert(s, e) == s,
{
    lemma_insert_appends(s, e);
    assert(ranked_insert(s, e) =~= s);
}

/// Draining records of strictly increasing strength keeps exactly the
/// strongest `MAX_SCAN_RESULTS` of them, strongest first: the records beyond
/// capacity, the weakest ones, are evicted.
pub proof fn lemma_increasing_scan_keeps_strongest(entries: Seq<ScanEntry>)
    requires
        forall|i: int, j: int| 0 <= i < j < entries.len() ==> entries[i].rssi < entries[j].rssi,
    ensures
        entries.len() <= MAX_SCAN_RESULTS ==> ranked_of(entries).len() == entries.len(),
        entries.len() > MAX_SCAN_RESULTS ==> ranked_of(entries).len() == MAX_SCAN_RESULTS,
        forall|k: int| 0 <= k < ranked_of(entries).len()
            ==> ranked_of(entries)[k] == entries[entries.len() - 1 - k],
    decreases entries.len(),
{
    if entries.len() == 0 {
    } else {
        let prefix = entries.drop_last();
        let e = entries.last();
        lemma_increasing_scan_keeps_strongest(prefix);
        let r = ranked_of(prefix);
        if r.len() == 0 {
            assert(seq_insert_desc(r, e) =~= seq![e]);
        } else {
            assert(r[0] == prefix[prefix.len() - 1]);
            assert(r[0].rssi < e.rssi);
            assert(seq_insert_desc(r, e) =~= seq![e] + r);
        }
        assert(ranked_of(entries) == cap_to(seq_insert_desc(r, e), MAX_SCAN_RESULTS as int));
    }
}

} // verus!
