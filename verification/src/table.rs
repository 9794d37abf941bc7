//! The confusables table: an immutable, sorted mapping from source
//! codepoints to prototype sequences held in a flat pool.
use vstd::prelude::*;

verus! {

/// One confusables mapping: a source codepoint together with the offset at
/// which its prototype sequence starts in the prototype pool. The sequence
/// ends where the next entry's sequence starts (or at the pool's end for the
/// last entry).
#[derive(Clone, Copy)]
pub struct ConfusableEntry {
    /// The source codepoint.
    pub key: u32,
    /// Start of this entry's prototype sequence in the pool.
    pub offset: u16,
}

/// True when the entry keys are strictly ascending, so that the keys are
/// unique and binary search applies.
pub open spec fn keys_strictly_sorted(s: Seq<ConfusableEntry>) -> bool {
    forall|i: int, j: int|
        0 <= i < j < s.len() ==> (#[trigger] s[i]).key < (#[trigger] s[j]).key
}

/// True when some entry of `s` has key `x`.
pub open spec fn seq_has_key(s: Seq<ConfusableEntry>, x: u32) -> bool {
    exists|i: int| 0 <= i < s.len() && (#[trigger] s[i]).key == x
}

/// Where entry `i`'s prototype sequence ends in a pool of length `pool_len`:
/// at the next entry's offset, or at the pool's end for the last entry.
pub open spec fn entry_end(s: Seq<ConfusableEntry>, pool_len: int, i: int) -> int {
    if i + 1 < s.len() {
        s[i + 1].offset as int
    } else {
        pool_len
    }
}

/// True when the offsets cut the pool into non-empty, in-bounds sub-ranges:
/// the first entry starts at offset zero, each entry's range is non-empty and
/// ends within the pool, an empty table has an empty pool, and the pool fits
/// the 16-bit offset width.
pub open spec fn ranges_wf(s: Seq<ConfusableEntry>, pool: Seq<char>) -> bool {
    &&& (s.len() > 0 ==> s[0].offset == 0)
    &&& (s.len() == 0 ==> pool.len() == 0)
    &&& pool.len() <= 0xFFFF
    &&& forall|i: int|
        0 <= i < s.len() ==> ((#[trigger] s[i]).offset as int) < entry_end(s, pool.len() as int, i)
            && entry_end(s, pool.len() as int, i) <= pool.len()
}

/// The single-pass closure property: no character of the pool is itself a
/// table key, so a prototype never needs re-expansion.
pub open spec fn pool_closed(s: Seq<ConfusableEntry>, pool: Seq<char>) -> bool {
    forall|k: int| 0 <= k < pool.len() ==> !seq_has_key(s, (#[trigger] pool[k]) as u32)
}

/// The confusables table: entries sorted by source codepoint, and a flat pool
/// holding every prototype sequence back to back.
pub struct ConfusablesTable {
    /// The sorted entries, one per source codepoint.
    pub entries: Vec<ConfusableEntry>,
    /// The prototype pool; each entry's prototype sequence is a contiguous
    /// sub-range of it.
    pub pool: Vec<char>,
}

impl ConfusablesTable {
    /// The table's construction invariants: sorted unique keys, a properly
    /// partitioned pool, and the single-pass closure property.
    pub open spec fn wf(self) -> bool {
        &&& keys_strictly_sorted(self.entries@)
        &&& ranges_wf(self.entries@, self.pool@)
        &&& pool_closed(self.entries@, self.pool@)
    }

    /// True when codepoint `x` is a key of the table.
    pub open spec fn has_key(self, x: u32) -> bool {
        seq_has_key(self.entries@, x)
    }

    /// The index of the entry whose key is `x` (meaningful only when
    /// `has_key(x)` holds; under `wf` that index is unique).
    pub open spec fn key_index(self, x: u32) -> int {
        choose|i: int| 0 <= i < self.entries@.len() && (#[trigger] self.entries@[i]).key == x
    }

    /// Where entry `i`'s prototype sequence starts in the pool.
    pub open spec fn proto_start(self, i: int) -> int {
        self.entries@[i].offset as int
    }

    /// Where entry `i`'s prototype sequence ends in the pool.
    pub open spec fn proto_end(self, i: int) -> int {
        entry_end(self.entries@, self.pool@.len() as int, i)
    }

    /// The expansion of a character: its prototype sequence when it is a
    /// table key, else the character itself.
    pub open spec fn expansion(self, c: char) -> Seq<char> {
        if self.has_key(c as u32) {
            let i = self.key_index(c as u32);
            self.pool@.subrange(self.proto_start(i), self.proto_end(i))
        } else {
            seq![c]
        }
    }
}

/// In a strictly sorted entry sequence, an earlier key is below a later one.
proof fn lemma_sorted_key_lt(s: Seq<ConfusableEntry>, i: int, j: int)
    requires
        forall|k: int| 0 <= k < s.len() - 1 ==> (#[trigger] s[k]).key < s[k + 1].key,
        0 <= i < j < s.len(),
    ensures
        s[i].key < s[j].key,
    decreases j - i,
{
    if i + 1 < j {
        lemma_sorted_key_lt(s, i, j - 1);
    }
    assert(s[j - 1].key < s[j].key);
}

/// Strictly ascending adjacent keys give strictly ascending keys overall.
proof fn lemma_adjacent_sorted_implies_sorted(s: Seq<ConfusableEntry>)
    requires
        forall|k: int| 0 <= k < s.len() - 1 ==> (#[trigger] s[k]).key < s[k + 1].key,
    ensures
        keys_strictly_sorted(s),
{
    assert forall|i: int, j: int| 0 <= i < j < s.len() implies (#[trigger] s[i]).key < (
    #[trigger] s[j]).key by {
        lemma_sorted_key_lt(s, i, j);
    }
}

/// Under sorted keys, the entry index of a present key is unique.
pub proof fn lemma_key_index_unique(t: ConfusablesTable, x: u32, i: int)
    requires
        keys_strictly_sorted(t.entries@),
        0 <= i < t.entries@.len(),
        t.entries@[i].key == x,
    ensures
        t.has_key(x),
        t.key_index(x) == i,
{
    assert(t.has_key(x));
    let j = t.key_index(x);
    if j < i {
        assert(t.entries@[j].key < t.entries@[i].key);
    } else if i < j {
        assert(t.entries@[i].key < t.entries@[j].key);
    }
}

impl ConfusablesTable {
    /// Build a table from raw entries and a raw pool, validating every
    /// construction invariant; a violation yields `None` rather than a
    /// partially valid table.
    pub fn new(entries: Vec<ConfusableEntry>, pool: Vec<char>) -> (r: Option<ConfusablesTable>)
        ensures
            r matches Some(t) ==> t.wf() && t == (ConfusablesTable { entries, pool }),
            r is None ==> !(ConfusablesTable { entries, pool }).wf(),
    {
        let n = entries.len();
        if n > 0 && entries[0].offset != 0 {
            return None;
        }
        if n == 0 && pool.len() > 0 {
            return None;
        }
        if pool.len() > 0xFFFF {
            return None;
        }
        let mut i: usize = 0;
        while i < n
            invariant
                n == entries@.len(),
                i <= n,
                forall|k: int|
                    0 <= k < i && k + 1 < n ==> (#[trigger] entries@[k]).key < entries@[k + 1].key,
            decreases n - i,
        {
            if i + 1 < n && entries[i].key >= entries[i + 1].key {
                return None;
            }
            i = i + 1;
        }
        proof {
            lemma_adjacent_sorted_implies_sorted(entries@);
        }
        let mut i: usize = 0;
        while i < n
            invariant
                n == entries@.len(),
                i <= n,
                forall|k: int|
                    0 <= k < i ==> ((#[trigger] entries@[k]).offset as int) < entry_end(
                        entries@,
                        pool@.len() as int,
                        k,
                    ) && entry_end(entries@, pool@.len() as int, k) <= pool@.len(),
            decreases n - i,
        {
            let start = entries[i].offset as usize;
            let end = if i + 1 < n {
                entries[i + 1].offset as usize
            } else {
                pool.len()
            };
            if !(start < end && end <= pool.len()) {
                return None;
            }
            i = i + 1;
        }
        let mut k: usize = 0;
        while k < pool.len()
            invariant
                n == entries@.len(),
                k <= pool@.len(),
                forall|m: int| 0 <= m < k ==> !seq_has_key(entries@, (#[trigger] pool@[m]) as u32),
            decreases pool@.len() - k,
        {
            let x = pool[k] as u32;
            let mut j: usize = 0;
            while j < n
                invariant
                    n == entries@.len(),
                    j <= n,
                    x == pool@[k as int] as u32,
                    k < pool@.len(),
                    forall|m: int| 0 <= m < j ==> (#[trigger] entries@[m]).key != x,
                decreases n - j,
            {
                if entries[j].key == x {
                    return None;
                }
                j = j + 1;
            }
            assert(!seq_has_key(entries@, pool@[k as int] as u32));
            k = k + 1;
        }
        Some(ConfusablesTable { entries, pool })
    }

    /// Binary search for `c` among the entry keys; `Some(i)` gives the index
    /// of the entry whose key is `c`, `None` says `c` is not a key.
    #[verifier::rlimit(50)]
    pub fn lookup(&self, c: char) -> (r: Option<usize>)
        requires
            self.wf(),
        ensures
            r matches Some(i) ==> i < self.entries@.len() && self.entries@[i as int].key == c
                as u32 && self.has_key(c as u32) && self.key_index(c as u32) == i,
            r is None ==> !self.has_key(c as u32),
    {
        let x = c as u32;
        let mut lo: usize = 0;
        let mut hi: usize = self.entries.len();
        while lo < hi
            invariant
                keys_strictly_sorted(self.entries@),
                lo <= hi <= self.entries@.len(),
                forall|k: int| 0 <= k < lo ==> (#[trigger] self.entries@[k]).key < x,
                forall|k: int| hi <= k < self.entries@.len() ==> (#[trigger] self.entries@[k]).key > x,
                x == c as u32,
            decreases hi - lo,
        {
            let mid = lo + (hi - lo) / 2;
            let key = self.entries[mid].key;
            if key < x {
                lo = mid + 1;
            } else if key > x {
                hi = mid;
            } else {
                proof {
                    lemma_key_index_unique(*self, x, mid as int);
                }
                return Some(mid);
            }
        }
        assert(forall|k: int|
            0 <= k < self.entries@.len() ==> (#[trigger] self.entries@[k]).key != x);
        None
    }

    /// Whether any character of `chars` is a key of the table. A sequence
    /// free of keys is left unchanged by prototype expansion.
    pub fn contains_key_of(&self, chars: &Vec<char>) -> (r: bool)
        requires
            self.wf(),
        ensures
            r == exists|i: int|
                0 <= i < chars@.len() && self.has_key((#[trigger] chars@[i]) as u32),
    {
        let mut i: usize = 0;
        while i < chars.len()
            invariant
                self.wf(),
                i <= chars@.len(),
                forall|k: int| 0 <= k < i ==> !self.has_key((#[trigger] chars@[k]) as u32),
            decreases chars@.len() - i,
        {
            if self.lookup(chars[i]).is_some() {
                return true;
            }
            i = i + 1;
        }
        false
    }
}

/// Identity fallback: a codepoint that is not a table key expands to exactly
/// itself.
pub proof fn lemma_identity_fallback(t: ConfusablesTable, c: char)
    requires
        !t.has_key(c as u32),
    ensures
        t.expansion(c) == seq![c],
{
}

/// Closure of expansions: no character produced by the prototype expander is
/// itself a table key, so a single substitution pass suffices.
pub proof fn lemma_expansion_closed(t: ConfusablesTable, c: char, j: int)
    requires
        t.wf(),
        0 <= j < t.expansion(c).len(),
    ensures
        !t.has_key(t.expansion(c)[j] as u32),
{
    if t.has_key(c as u32) {
        let i = t.key_index(c as u32);
        assert(0 <= i < t.entries@.len() && t.entries@[i].key == c as u32);
        assert(t.expansion(c)[j] == t.pool@[t.proto_start(i) + j]);
    } else {
        assert(t.expansion(c)[j] == c);
    }
}

} // verus!
