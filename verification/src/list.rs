//! An ordered collection with an optional single selection cursor. The
//! cursor moves with wrapping `next`/`previous` steps, and insertion is
//! content-based: a record structurally equal to one already present is not
//! inserted again, and admitted records go to the front (most recent first).

use crate::record::{RecordView, ThwDatum};
use vstd::prelude::*;

verus! {

/// An ordered sequence of items with an optional cursor into it.
pub struct SelectableList<T> {
    pub items: Vec<T>,
    pub cursor: Option<usize>,
}

/// A cursor is valid when it is absent or points inside the items.
pub open spec fn cursor_ok(c: Option<int>, len: int) -> bool {
    match c {
        Option::None => true,
        Option::Some(i) => 0 <= i < len,
    }
}

/// The cursor after one wrapping forward step over `len` items.
pub open spec fn next_cursor(c: Option<int>, len: int) -> Option<int> {
    if len <= 0 {
        Option::None
    } else {
        match c {
            Option::None => Option::Some(0),
            Option::Some(i) => Option::Some(if i + 1 >= len { 0int } else { i + 1 }),
        }
    }
}

/// The cursor after one wrapping backward step over `len` items.
pub open spec fn prev_cursor(c: Option<int>, len: int) -> Option<int> {
    if len <= 0 {
        Option::None
    } else {
        match c {
            Option::None => Option::Some(0),
            Option::Some(i) => Option::Some(if i <= 0 { len - 1 } else { i - 1 }),
        }
    }
}

/// Whether a record structurally equal to `r` occurs in `s`.
pub open spec fn rec_seq_contains(s: Seq<RecordView>, r: RecordView) -> bool {
    exists|i: int| 0 <= i < s.len() && s[i] == r
}

/// The dedup insert policy: a record already present leaves the sequence
/// unchanged; a new one is put at the front.
pub open spec fn insert_rec(s: Seq<RecordView>, r: RecordView) -> Seq<RecordView> {
    if rec_seq_contains(s, r) {
        s
    } else {
        seq![r] + s
    }
}

/// No two entries of `s` are structurally equal.
pub open spec fn no_dup_recs(s: Seq<RecordView>) -> bool {
    forall|i: int, j: int| 0 <= i < j < s.len() ==> s[i] != s[j]
}

impl<T> SelectableList<T> {
    /// Well-formed: the cursor, if present, is a valid index.
    pub open spec fn wf(self) -> bool {
        cursor_ok(self.cursor_view(), self.items@.len() as int)
    }

    /// The cursor as a mathematical optional index.
    pub open spec fn cursor_view(self) -> Option<int> {
        match self.cursor {
            Option::None => Option::None,
            Option::Some(i) => Option::Some(i as int),
        }
    }

    pub fn new() -> (l: SelectableList<T>)
        ensures
            l.wf(),
            l.items@.len() == 0,
            l.cursor is None,
    {
        SelectableList { items: Vec::new(), cursor: None }
    }

    /// The currently selected index, if any.
    pub fn selected(&self) -> (r: Option<usize>)
        ensures
            r == self.cursor,
    {
        self.cursor
    }

    /// Move the cursor to the following item, wrapping to the front past the
    /// last item. On an empty list the cursor stays absent.
    pub fn next(&mut self)
        requires
            old(self).wf(),
        ensures
            final(self).wf(),
            final(self).items == old(self).items,
            final(self).cursor_view() == next_cursor(
                old(self).cursor_view(),
                old(self).items@.len() as int,
            ),
    {
        let n = self.items.len();
        if n == 0 {
            self.cursor = None;
        } else {
            self.cursor = Some(
                match self.cursor {
                    Some(i) => {
                        if i + 1 >= n {
                            0
                        } else {
                            i + 1
                        }
                    },
                    None => 0,
                },
            );
        }
    }

    /// Move the cursor to the preceding item, wrapping to the back past the
    /// first item. On an empty list the cursor stays absent.
    pub fn previous(&mut self)
        requires
            old(self).wf(),
        ensures
            final(self).wf(),
            final(self).items == old(self).items,
            final(self).cursor_view() == prev_cursor(
                old(self).cursor_view(),
                old(self).items@.len() as int,
            ),
    {
        let n = self.items.len();
        if n == 0 {
            self.cursor = None;
        } else {
            self.cursor = Some(
                match self.cursor {
                    Some(i) => {
                        if i == 0 {
                            n - 1
                        } else {
                            i - 1
                        }
                    },
                    None => 0,
                },
            );
        }
    }
}

impl SelectableList<ThwDatum> {
    /// Insert `item` at the front unless a structurally equal record is
    /// already present; the cursor does not move.
    pub fn insert(&mut self, item: ThwDatum)
        requires
            old(self).wf(),
        ensures
            final(self).wf(),
            final(self).items.deep_view() == insert_rec(old(self).items.deep_view(), item@),
            final(self).cursor == old(self).cursor,
    {
        let ghost orig = self.items.deep_view();
        let n = self.items.len();
        let mut j: usize = 0;
        let mut found = false;
        while j < n
            invariant
                j <= n,
                n == self.items@.len(),
                self.items.deep_view() == orig,
                found <==> exists|i: int| 0 <= i < j && orig[i] == item@,
            decreases n - j,
        {
            if self.items[j].eq(&item) {
                proof {
                    assert(orig[j as int] == item@);
                }
                found = true;
            }
            j = j + 1;
        }
        if !found {
            self.items.insert(0, item);
            proof {
                assert(!rec_seq_contains(orig, item@));
                assert(self.items.deep_view() =~= seq![item@] + orig);
            }
        }
    }
}

/// One operation on a record list, as the dashboard performs them: a
/// content-based insert or a wrapping cursor move.
pub enum ListOp {
    Insert(RecordView),
    Next,
    Previous,
}

/// The items and cursor after one operation, per the contracts of
/// `SelectableList::insert`, `next` and `previous`.
pub open spec fn apply_op(
    items: Seq<RecordView>,
    cursor: Option<int>,
    op: ListOp,
) -> (Seq<RecordView>, Option<int>) {
    match op {
        ListOp::Insert(r) => (insert_rec(items, r), cursor),
        ListOp::Next => (items, next_cursor(cursor, items.len() as int)),
        ListOp::Previous => (items, prev_cursor(cursor, items.len() as int)),
    }
}

/// The items and cursor after a whole sequence of operations, applied in
/// order.
pub open spec fn run_ops(
    items: Seq<RecordView>,
    cursor: Option<int>,
    ops: Seq<ListOp>,
) -> (Seq<RecordView>, Option<int>)
    decreases ops.len(),
{
    if ops.len() == 0 {
        (items, cursor)
    } else {
        let (items1, cursor1) = apply_op(items, cursor, ops[0]);
        run_ops(items1, cursor1, ops.skip(1))
    }
}

/// After any sequence of insert, next and previous operations, the cursor is
/// still absent or a valid index: no operation can leave it dangling.
pub proof fn lemma_cursor_valid_after_ops(
    items: Seq<RecordView>,
    cursor: Option<int>,
    ops: Seq<ListOp>,
)
    requires
        cursor_ok(cursor, items.len() as int),
    ensures
        cursor_ok(run_ops(items, cursor, ops).1, run_ops(items, cursor, ops).0.len() as int),
    decreases ops.len(),
{
    if ops.len() > 0 {
        let (items1, cursor1) = apply_op(items, cursor, ops[0]);
        assert(cursor_ok(cursor1, items1.len() as int));
        lemma_cursor_valid_after_ops(items1, cursor1, ops.skip(1));
    }
}

/// Inserting the same record twice has the same effect as inserting it once:
/// the second insert finds the record present and leaves the list unchanged.
pub proof fn lemma_insert_dedup_idempotent(s: Seq<RecordView>, r: RecordView)
    ensures
        insert_rec(insert_rec(s, r), r) == insert_rec(s, r),
{
    if !rec_seq_contains(s, r) {
        assert((seq![r] + s)[0] == r);
        assert(rec_seq_contains(seq![r] + s, r));
    }
}

/// The dedup insert keeps entries pairwise distinct and leaves the inserted
/// record present, so a record ends up as exactly one entry however often it
/// is offered.
pub proof fn lemma_insert_no_dups(s: Seq<RecordView>, r: RecordView)
    requires
        no_dup_recs(s),
    ensures
        no_dup_recs(insert_rec(s, r)),
        rec_seq_contains(insert_rec(s, r), r),
{
    if rec_seq_contains(s, r) {
    } else {
        let t = seq![r] + s;
        assert(t[0] == r);
        assert forall|i: int, j: int| 0 <= i < j < t.len() implies t[i] != t[j] by {
            if i == 0 {
                assert(t[j] == s[j - 1]);
                assert(!(exists|k: int| 0 <= k < s.len() && s[k] == r));
            } else {
                assert(t[i] == s[i - 1]);
                assert(t[j] == s[j - 1]);
            }
        }
    }
}

} // verus!
