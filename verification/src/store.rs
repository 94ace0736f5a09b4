//! The storage model for books.
//!
//! The real table lives in the database; this type is its mathematical
//! counterpart, holding exactly what the schema holds: rows of
//! identifier and title, identifiers assigned by a sequence starting at
//! one. The invariant is the table's: identifiers unique, titles at most
//! 64 characters. The handlers' laws — create-then-get round trips,
//! distinct identifiers for distinct creations — are proved against it.

use vstd::prelude::*;
use crate::models::Book;

verus! {

/// Inserting a row: the store appends it with the identifier the
/// sequence hands out.
pub open spec fn spec_insert(
    rows: Seq<(int, Seq<char>)>,
    next: int,
    title: Seq<char>,
) -> Seq<(int, Seq<char>)> {
    rows.push((next, title))
}

/// Whether some row carries the given identifier.
pub open spec fn row_with_id(rows: Seq<(int, Seq<char>)>, id: int) -> bool {
    exists|i: int| 0 <= i < rows.len() && rows[i].0 == id
}

/// Primary-key lookup: the title of the row with the given identifier,
/// if any. With unique identifiers there is at most one such row.
pub open spec fn spec_lookup(rows: Seq<(int, Seq<char>)>, id: int) -> Option<Seq<char>> {
    if row_with_id(rows, id) {
        let i = choose|i: int| 0 <= i < rows.len() && rows[i].0 == id;
        Some(rows[i].1)
    } else {
        None
    }
}

/// The book table: rows plus the next value of the identifier sequence.
pub struct BookStore {
    books: Vec<Book>,
    next_id: i32,
}

impl BookStore {
    /// The rows as identifier/title pairs.
    pub closed spec fn rows(self) -> Seq<(int, Seq<char>)> {
        self.books@.map(|i: int, b: Book| (b.id as int, b.title@))
    }

    /// The next identifier the sequence will assign.
    pub closed spec fn next(self) -> int {
        self.next_id as int
    }

    /// The table invariant: the sequence starts at one and is ahead of
    /// every assigned identifier, identifiers are unique, and every
    /// stored title fits the length bound.
    pub open spec fn wf(self) -> bool {
        &&& 1 <= self.next()
        &&& forall|i: int|
            0 <= i < self.rows().len() ==> 1 <= (#[trigger] self.rows()[i]).0 < self.next()
        &&& forall|i: int, j: int|
            0 <= i < j < self.rows().len() ==> self.rows()[i].0 != self.rows()[j].0
        &&& forall|i: int| 0 <= i < self.rows().len() ==> (#[trigger] self.rows()[i]).1.len() <= 64
    }

    /// Whether the 32-bit identifier sequence can still hand out a value.
    pub open spec fn can_assign_id(self) -> bool {
        self.next() < i32::MAX as int
    }

    /// An empty table, sequence at one.
    pub fn new() -> (r: BookStore)
        ensures
            r.wf(),
            r.rows() == Seq::<(int, Seq<char>)>::empty(),
            r.next() == 1,
    {
        let r = BookStore { books: Vec::new(), next_id: 1 };
        proof {
            assert(r.rows() =~= Seq::<(int, Seq<char>)>::empty());
        }
        r
    }

    /// Inserts a row. The store assigns the identifier, as the database
    /// sequence does, and returns the full row.
    pub fn create(&mut self, title: String) -> (r: Book)
        requires
            old(self).wf(),
            title@.len() <= 64,
            old(self).can_assign_id(),
        ensures
            final(self).wf(),
            r.id as int == old(self).next(),
            r.title@ == title@,
            final(self).rows() == spec_insert(old(self).rows(), old(self).next(), title@),
            final(self).next() == old(self).next() + 1,
    {
        let id = self.next_id;
        self.next_id = self.next_id + 1;
        let row = Book { id, title: title.clone() };
        self.books.push(row);
        proof {
            assert(self.rows() =~= spec_insert(old(self).rows(), old(self).next(), title@));
        }
        Book { id, title }
    }

    /// Primary-key lookup, comparing the stored 32-bit identifier
    /// widened to the 64-bit one the caller supplies.
    pub fn get(&self, id: i64) -> (r: Option<Book>)
        requires
            self.wf(),
        ensures
            (match spec_lookup(self.rows(), id as int) {
                Some(t) => r matches Some(b) && b.id as int == id as int && b.title@ == t,
                None => r is None,
            }),
    {
        let n = self.books.len();
        let mut i: usize = 0;
        while i < n
            invariant
                self.wf(),
                n == self.books.len(),
                0 <= i <= n,
                forall|j: int| 0 <= j < i ==> (#[trigger] self.rows()[j]).0 != id as int,
            decreases n - i,
        {
            let b = &self.books[i];
            if b.id as i64 == id {
                proof {
                    assert(self.rows()[i as int].0 == id as int);
                    assert(row_with_id(self.rows(), id as int));
                    let k = choose|k: int|
                        0 <= k < self.rows().len() && self.rows()[k].0 == id as int;
                    if k != i as int {
                        assert(self.rows()[k].0 != self.rows()[i as int].0);
                    }
                }
                return Some(Book { id: b.id, title: b.title.clone() });
            }
            i += 1;
        }
        proof {
            assert(!row_with_id(self.rows(), id as int));
        }
        None
    }
}

/// Law: creating a book and then getting it by the returned identifier
/// finds exactly the created title, and the identifier is positive (so
/// in particular non-negative).
pub proof fn lemma_create_then_get(s: BookStore, title: Seq<char>)
    requires
        s.wf(),
    ensures
        spec_lookup(spec_insert(s.rows(), s.next(), title), s.next()) == Some(title),
        s.next() >= 1,
{
    let rows2 = spec_insert(s.rows(), s.next(), title);
    assert(rows2[s.rows().len() as int].0 == s.next());
    assert(row_with_id(rows2, s.next()));
    let k = choose|k: int| 0 <= k < rows2.len() && rows2[k].0 == s.next();
    if k != s.rows().len() as int {
        assert(rows2[k] == s.rows()[k]);
        assert(s.rows()[k].0 < s.next());
    }
}

/// Law: the identifier a creation is about to assign is fresh — no
/// stored row carries it. Together with `lemma_distinct_ids` this is
/// why concurrent creations, however the database serializes them,
/// both succeed and never collide.
pub proof fn lemma_assigned_id_fresh(s: BookStore, title: Seq<char>)
    requires
        s.wf(),
    ensures
        !row_with_id(s.rows(), s.next()),
        spec_insert(s.rows(), s.next(), title).last() == (s.next(), title),
{
    assert(spec_insert(s.rows(), s.next(), title).last() == (s.next(), title));
}

/// Law: two creations, in whichever order the database serializes them,
/// assign distinct identifiers: each creation returns the sequence value
/// it was given and advances the sequence, so the second identifier is
/// strictly greater than the first.
pub proof fn lemma_distinct_ids(first_next: int, second_next: int, id1: int, id2: int)
    requires
        id1 == first_next,
        second_next == first_next + 1,
        id2 == second_next,
    ensures
        id1 != id2,
        id2 > id1,
{
}

} // verus!
