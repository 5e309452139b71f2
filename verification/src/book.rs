//! The book table: records read from the binary book format, kept in key
//! order, and looked up by position fingerprint.
//!
//! A book is a sequence of 16-byte records with no header, footer or padding.
//! Each record holds, big-endian, an 8-byte key, a 2-byte packed move, a
//! 2-byte weight and a 4-byte learn value. Records are sorted by key, lowest
//! first; several records may share a key.

use crate::moves::{decoded, DecodeError, DecodedMove};
use vstd::prelude::*;
use vstd::slice::slice_subrange;

verus! {

/// The size of one record in bytes.
pub const RECORD_SIZE: usize = 16;

/// One recommended move for one position.
#[derive(Debug, Clone, Copy, PartialEq, Eq, Structural)]
pub struct Entry {
    pub key: u64,
    pub book_move: u16,
    pub weight: u16,
    pub learn: u32,
}

/// Why a book could not be loaded.
#[derive(Debug, Clone, Copy, PartialEq, Eq, Structural)]
pub enum LoadError {
    /// The byte source could not be opened or read.
    IoFailure,
    /// Record `index` has a smaller key than the record before it.
    UnsortedKeys { index: usize, prev_key: u64, key: u64 },
    /// After `index` whole records, `bytes_read` bytes were left over, too
    /// few for another record.
    TruncatedRecord { index: usize, bytes_read: usize },
}

impl Entry {
    /// Decodes the record's packed move. `Ok(None)` means that the record
    /// holds no move.
    pub fn decode_move(&self) -> (r: Result<Option<DecodedMove>, DecodeError>)
        ensures
            r == decoded(self.book_move),
    {
        DecodedMove::decode(self.book_move)
    }
}

/// The number that two bytes spell, most significant byte first.
pub open spec fn be_u16(bytes: Seq<u8>, at: int) -> u16 {
    (bytes[at] * 0x100 + bytes[at + 1]) as u16
}

/// The number that four bytes spell, most significant byte first.
pub open spec fn be_u32(bytes: Seq<u8>, at: int) -> u32 {
    (bytes[at] * 0x100_0000 + bytes[at + 1] * 0x1_0000 + bytes[at + 2] * 0x100 + bytes[at
        + 3]) as u32
}

/// The number that eight bytes spell, most significant byte first.
pub open spec fn be_u64(bytes: Seq<u8>, at: int) -> u64 {
    (be_u32(bytes, at) * 0x1_0000_0000 + be_u32(bytes, at + 4)) as u64
}

/// The record that starts at byte `16 * index`.
pub open spec fn record_at(bytes: Seq<u8>, index: int) -> Entry {
    Entry {
        key: be_u64(bytes, 16 * index),
        book_move: be_u16(bytes, 16 * index + 8),
        weight: be_u16(bytes, 16 * index + 10),
        learn: be_u32(bytes, 16 * index + 12),
    }
}

/// The whole records that a byte sequence holds, in order. Up to 15 bytes at
/// the end belong to no record.
pub open spec fn records(bytes: Seq<u8>) -> Seq<Entry> {
    Seq::new((bytes.len() / 16) as nat, |index: int| record_at(bytes, index))
}

/// No record has a smaller key than a record before it.
pub open spec fn sorted(entries: Seq<Entry>) -> bool {
    forall|i: int, j: int| 0 <= i <= j < entries.len() ==> entries[i].key <= entries[j].key
}

fn read_u16(bytes: &[u8], at: usize) -> (value: u16)
    requires
        at + 2 <= bytes.len(),
    ensures
        value == be_u16(bytes@, at as int),
{
    (bytes[at] as u16) * 0x100 + (bytes[at + 1] as u16)
}

fn read_u32(bytes: &[u8], at: usize) -> (value: u32)
    requires
        at + 4 <= bytes.len(),
    ensures
        value == be_u32(bytes@, at as int),
{
    (bytes[at] as u32) * 0x100_0000 + (bytes[at + 1] as u32) * 0x1_0000 + (bytes[at + 2] as u32)
        * 0x100 + (bytes[at + 3] as u32)
}

fn read_u64(bytes: &[u8], at: usize) -> (value: u64)
    requires
        at + 8 <= bytes.len(),
    ensures
        value == be_u64(bytes@, at as int),
{
    let high = read_u32(bytes, at);
    let low = read_u32(bytes, at + 4);
    (high as u64) * 0x1_0000_0000 + (low as u64)
}

/// Reads record number `index`.
fn read_entry(bytes: &[u8], index: usize) -> (entry: Entry)
    requires
        16 * (index + 1) <= bytes.len(),
    ensures
        entry == record_at(bytes@, index as int),
{
    let at = index * RECORD_SIZE;
    Entry {
        key: read_u64(bytes, at),
        book_move: read_u16(bytes, at + 8),
        weight: read_u16(bytes, at + 10),
        learn: read_u32(bytes, at + 12),
    }
}

/// Whether a record with key `entry_key` lies before the boundary that a
/// lookup of `key` draws: below `key` for the lower boundary, below or at
/// `key` for the upper one.
pub open spec fn before(entry_key: u64, key: u64, inclusive: bool) -> bool {
    if inclusive {
        entry_key <= key
    } else {
        entry_key < key
    }
}

/// The index of the first record at or after `from` that does not lie before
/// the boundary, or the number of records if there is none.
pub open spec fn boundary_from(entries: Seq<Entry>, key: u64, inclusive: bool, from: int) -> int
    decreases entries.len() - from,
{
    if 0 <= from < entries.len() && before(entries[from].key, key, inclusive) {
        boundary_from(entries, key, inclusive, from + 1)
    } else {
        from
    }
}

/// The index of the first record whose key is at least `key`.
pub open spec fn lower_bound(entries: Seq<Entry>, key: u64) -> int {
    boundary_from(entries, key, false, 0)
}

/// The index of the first record whose key is greater than `key`.
pub open spec fn upper_bound(entries: Seq<Entry>, key: u64) -> int {
    boundary_from(entries, key, true, 0)
}

/// The test that picks the records of one key.
pub open spec fn has_key(key: u64) -> spec_fn(Entry) -> bool {
    |entry: Entry| entry.key == key
}

/// The first record not before the boundary is where the function says: all
/// records from `from` up to it lie before the boundary, and it does not.
pub proof fn lemma_boundary_from(entries: Seq<Entry>, key: u64, inclusive: bool, from: int)
    requires
        0 <= from <= entries.len(),
    ensures
        from <= boundary_from(entries, key, inclusive, from) <= entries.len(),
        forall|j: int|
            from <= j < boundary_from(entries, key, inclusive, from) ==> before(
                #[trigger] entries[j].key,
                key,
                inclusive,
            ),
        boundary_from(entries, key, inclusive, from) < entries.len() ==> !before(
            entries[boundary_from(entries, key, inclusive, from)].key,
            key,
            inclusive,
        ),
    decreases entries.len() - from,
{
    if from < entries.len() && before(entries[from].key, key, inclusive) {
        lemma_boundary_from(entries, key, inclusive, from + 1);
    }
}

/// An index that splits the records into those before the boundary and
/// those not before it is the boundary.
pub proof fn lemma_boundary_unique(entries: Seq<Entry>, key: u64, inclusive: bool, at: int)
    requires
        0 <= at <= entries.len(),
        forall|j: int| 0 <= j < at ==> before(#[trigger] entries[j].key, key, inclusive),
        at < entries.len() ==> !before(entries[at].key, key, inclusive),
    ensures
        boundary_from(entries, key, inclusive, 0) == at,
{
    lemma_boundary_from(entries, key, inclusive, 0);
    let found = boundary_from(entries, key, inclusive, 0);
    if found < at {
        assert(before(entries[found].key, key, inclusive));
    } else if found > at {
        assert(before(entries[at].key, key, inclusive));
    }
}

/// In a sorted table the records of one key form a single run, which the
/// two boundaries of a lookup enclose exactly: the records from the lower
/// to the upper boundary are those with the key, all of them, in table order,
/// and none if no record has the key.
pub proof fn lemma_run_of_key(entries: Seq<Entry>, key: u64)
    requires
        sorted(entries),
    ensures
        0 <= lower_bound(entries, key) <= upper_bound(entries, key) <= entries.len(),
        forall|j: int|
            0 <= j < entries.len() ==> (#[trigger] entries[j].key == key <==> lower_bound(
                entries,
                key,
            ) <= j < upper_bound(entries, key)),
        forall|j: int| 0 <= j < lower_bound(entries, key) ==> #[trigger] entries[j].key < key,
        forall|j: int|
            upper_bound(entries, key) <= j < entries.len() ==> #[trigger] entries[j].key > key,
        entries.subrange(lower_bound(entries, key), upper_bound(entries, key)) == entries.filter(
            has_key(key),
        ),
        (forall|j: int| 0 <= j < entries.len() ==> #[trigger] entries[j].key != key)
            ==> lower_bound(entries, key) == upper_bound(entries, key),
{
    let lo = lower_bound(entries, key);
    let hi = upper_bound(entries, key);
    lemma_boundary_from(entries, key, false, 0);
    lemma_boundary_from(entries, key, true, 0);
    if hi < lo {
        assert(before(entries[hi].key, key, false));
    }
    assert forall|j: int| lo <= j < entries.len() implies #[trigger] entries[j].key >= key by {
        assert(entries[lo].key <= entries[j].key);
    }
    assert forall|j: int| hi <= j < entries.len() implies #[trigger] entries[j].key > key by {
        assert(entries[hi].key <= entries[j].key);
    }
    assert forall|j: int| lo <= j < hi implies #[trigger] entries[j].key == key by {
        assert(before(entries[j].key, key, true));
    }
    assert forall|j: int| 0 <= j < lo implies #[trigger] entries[j].key < key by {
        assert(before(entries[j].key, key, false));
    }
    lemma_filter_prefix(entries, key, lo, hi, entries.len());
    assert(entries.take(entries.len() as int) == entries);
}

/// Filtering the first `n` records of a table for a key gives the part of
/// the key's run that lies within them.
proof fn lemma_filter_prefix(entries: Seq<Entry>, key: u64, lo: int, hi: int, n: nat)
    requires
        0 <= lo <= hi <= entries.len(),
        n <= entries.len(),
        forall|j: int| 0 <= j < entries.len() ==> (#[trigger] entries[j].key == key <==> lo <= j < hi),
    ensures
        entries.take(n as int).filter(has_key(key)) == entries.subrange(
            if lo <= n { lo } else { n as int },
            if hi <= n { hi } else { n as int },
        ),
    decreases n,
{
    reveal(Seq::filter);
    let prefix = entries.take(n as int);
    if n == 0 {
        assert(prefix.filter(has_key(key)) == Seq::<Entry>::empty());
        assert(entries.subrange(0, 0) == Seq::<Entry>::empty());
    } else {
        lemma_filter_prefix(entries, key, lo, hi, (n - 1) as nat);
        assert(prefix.drop_last() == entries.take(n - 1));
        assert(prefix.last() == entries[n - 1]);
        let shorter = entries.take(n - 1).filter(has_key(key));
        if has_key(key)(entries[n - 1]) {
            assert(lo <= n - 1 < hi);
            assert(shorter == entries.subrange(lo, n - 1));
            assert(shorter.push(entries[n - 1]) == entries.subrange(lo, n as int));
        } else {
            assert(!(lo <= n - 1 < hi));
            if n - 1 < lo {
                assert(entries.subrange(n - 1, n - 1) == entries.subrange(n as int, n as int));
            }
        }
    }
}

/// A table is sorted exactly if no record has a smaller key than the one
/// just before it.
pub proof fn lemma_sorted_adjacent(entries: Seq<Entry>)
    ensures
        sorted(entries) <==> forall|i: int|
            0 <= i < entries.len() - 1 ==> #[trigger] entries[i].key <= entries[i + 1].key,
{
    if forall|i: int| 0 <= i < entries.len() - 1 ==> #[trigger] entries[i].key <= entries[i + 1].key {
        assert forall|i: int, j: int| 0 <= i <= j < entries.len() implies entries[i].key
            <= entries[j].key by {
            lemma_climb(entries, i, j);
        }
    }
}

proof fn lemma_climb(entries: Seq<Entry>, i: int, j: int)
    requires
        0 <= i <= j < entries.len(),
        forall|k: int| 0 <= k < entries.len() - 1 ==> #[trigger] entries[k].key <= entries[k + 1].key,
    ensures
        entries[i].key <= entries[j].key,
    decreases j - i,
{
    if i < j {
        lemma_climb(entries, i, j - 1);
        assert(entries[j - 1].key <= entries[j - 1 + 1].key);
    }
}

/// A book table: the records of a book in key order. It is built once by
/// [`Polyglot::load_book`] and never changes.
pub struct Polyglot {
    book: Vec<Entry>,
}

impl View for Polyglot {
    type V = Seq<Entry>;

    /// The records, in the order of the book.
    closed spec fn view(&self) -> Seq<Entry> {
        self.book@
    }
}

impl Polyglot {
    #[verifier::type_invariant]
    spec fn in_key_order(self) -> bool {
        sorted(self.book@)
    }

    /// Builds the table from the bytes of a book.
    ///
    /// Records are taken in order. The first record whose key is smaller
    /// than its predecessor's stops the load with `UnsortedKeys`. If all
    /// whole records are in order but bytes are left over at the end, the
    /// load fails with `TruncatedRecord`. Otherwise the table holds every
    /// record of the book.
    pub fn load_book(bytes: &[u8]) -> (r: Result<Polyglot, LoadError>)
        ensures
            r is Ok <==> sorted(records(bytes@)) && bytes@.len() % 16 == 0,
            (r matches Err(LoadError::UnsortedKeys { .. })) <==> !sorted(records(bytes@)),
            (r matches Err(LoadError::TruncatedRecord { .. })) <==> sorted(records(bytes@))
                && bytes@.len() % 16 != 0,
            match r {
                Ok(table) => table@ == records(bytes@) && sorted(table@),
                Err(LoadError::UnsortedKeys { index, prev_key, key }) => {
                    &&& 1 <= index < records(bytes@).len()
                    &&& sorted(records(bytes@).take(index as int))
                    &&& prev_key == records(bytes@)[index - 1].key
                    &&& key == records(bytes@)[index as int].key
                    &&& key < prev_key
                },
                Err(LoadError::TruncatedRecord { index, bytes_read }) => {
                    &&& sorted(records(bytes@))
                    &&& index == bytes@.len() / 16
                    &&& bytes_read == bytes@.len() % 16
                    &&& bytes_read != 0
                },
                Err(LoadError::IoFailure) => false,
            },
    {
        let count = bytes.len() / RECORD_SIZE;
        let ghost all = records(bytes@);
        let mut book: Vec<Entry> = Vec::new();
        let mut prev_key: Option<u64> = None;
        let mut index: usize = 0;
        while index < count
            invariant
                index <= count,
                count == bytes.len() / 16,
                all == records(bytes@),
                book@ == all.take(index as int),
                sorted(book@),
                prev_key == if index == 0 {
                    None::<u64>
                } else {
                    Some(all[index - 1].key)
                },
            decreases count - index,
        {
            let entry = read_entry(bytes, index);
            assert(entry == all[index as int]);
            if let Some(prev) = prev_key {
                if entry.key < prev {
                    proof {
                        assert(!sorted(all)) by {
                            assert(all[index - 1].key > all[index as int].key);
                        }
                    }
                    return Err(LoadError::UnsortedKeys { index, prev_key: prev, key: entry.key });
                }
            }
            proof {
                let longer = book@.push(entry);
                assert(longer == all.take(index + 1));
                assert forall|i: int, j: int| 0 <= i <= j < longer.len() implies longer[i].key
                    <= longer[j].key by {
                    if j == index && i < index {
                        assert(book@[i].key <= book@[index - 1].key);
                    }
                }
            }
            book.push(entry);
            prev_key = Some(entry.key);
            index = index + 1;
        }
        assert(book@ == all);
        let rest = bytes.len() % RECORD_SIZE;
        if rest != 0 {
            return Err(LoadError::TruncatedRecord { index: count, bytes_read: rest });
        }
        Ok(Polyglot { book })
    }

    /// All records of the table, in key order.
    pub fn entries(&self) -> (all: &[Entry])
        ensures
            all@ == self@,
            sorted(all@),
    {
        proof {
            use_type_invariant(self);
        }
        self.book.as_slice()
    }

    /// Finds the boundary that a lookup of `key` draws: the index of the
    /// first record whose key is not below `key` or, if `inclusive`, not
    /// below or at `key`.
    fn boundary(&self, key: u64, inclusive: bool) -> (at: usize)
        ensures
            at == boundary_from(self@, key, inclusive, 0),
            at <= self@.len(),
    {
        proof {
            use_type_invariant(self);
        }
        let mut low: usize = 0;
        let mut high: usize = self.book.len();
        while low < high
            invariant
                low <= high <= self.book@.len(),
                sorted(self.book@),
                forall|j: int| 0 <= j < low ==> before(#[trigger] self.book@[j].key, key, inclusive),
                forall|j: int|
                    high <= j < self.book@.len() ==> !before(
                        #[trigger] self.book@[j].key,
                        key,
                        inclusive,
                    ),
            decreases high - low,
        {
            let mid = low + (high - low) / 2;
            let mid_key = self.book[mid].key;
            let lies_before = if inclusive {
                mid_key <= key
            } else {
                mid_key < key
            };
            if lies_before {
                assert forall|j: int| 0 <= j < mid + 1 implies before(
                    #[trigger] self.book@[j].key,
                    key,
                    inclusive,
                ) by {
                    assert(self.book@[j].key <= self.book@[mid as int].key);
                }
                low = mid + 1;
            } else {
                assert forall|j: int| mid <= j < self.book@.len() implies !before(
                    #[trigger] self.book@[j].key,
                    key,
                    inclusive,
                ) by {
                    assert(self.book@[mid as int].key <= self.book@[j].key);
                }
                high = mid;
            }
        }
        proof {
            lemma_boundary_unique(self.book@, key, inclusive, low as int);
        }
        low
    }

    /// The records whose key is `key`: all of them, in the order of the
    /// book, and none if the book has no such record.
    pub fn get_entries(&self, zobrist_key: u64) -> (found: &[Entry])
        ensures
            found@ == self@.subrange(
                lower_bound(self@, zobrist_key),
                upper_bound(self@, zobrist_key),
            ),
            found@ == self@.filter(has_key(zobrist_key)),
    {
        proof {
            use_type_invariant(self);
            lemma_run_of_key(self.book@, zobrist_key);
        }
        let start = self.boundary(zobrist_key, false);
        let end = self.boundary(zobrist_key, true);
        slice_subrange(self.book.as_slice(), start, end)
    }
}

} // verus!
