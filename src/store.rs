use vstd::prelude::*;

use crate::record::{NewRow, RowView, Student, StudentView};

verus! {

/// Why the store refused an insert.
#[derive(Clone, Copy, Debug, PartialEq, Eq, Structural)]
pub enum StoreError {
    /// Every id has been handed out.
    IdsExhausted,
}

/// The listing after `rows` were inserted, in order, into an empty store:
/// the k-th row inserted gets id k + 1.
pub open spec fn replay(rows: Seq<RowView>) -> Seq<StudentView>
    decreases rows.len(),
{
    if rows.len() == 0 {
        Seq::empty()
    } else {
        replay(rows.drop_last()).push(StudentView { id: rows.len() as i32, row: rows.last() })
    }
}

/// An in-memory record store. Ids are assigned on insert, counting from 1,
/// and rows are never changed or removed.
pub struct RecordStore {
    rows: Vec<Student>,
}

impl View for RecordStore {
    type V = Seq<StudentView>;

    closed spec fn view(&self) -> Seq<StudentView> {
        self.rows@.map_values(|s: Student| s@)
    }
}

impl RecordStore {
    /// Ids are 1, 2, ... in insertion order.
    pub open spec fn wf(&self) -> bool {
        forall|i: int| 0 <= i < self@.len() ==> (#[trigger] self@[i]).id == i + 1
    }

    /// An empty store.
    pub fn new() -> (r: RecordStore)
        ensures
            r@ == Seq::<StudentView>::empty(),
            r.wf(),
    {
        let r = RecordStore { rows: Vec::new() };
        assert(r@ =~= Seq::<StudentView>::empty());
        r
    }

    /// The number of stored rows.
    pub fn len(&self) -> (r: usize)
        ensures
            r == self@.len(),
    {
        self.rows.len()
    }

    /// Stores `row` under the next id and returns that id; refused only when
    /// no id is left.
    pub fn insert(&mut self, row: NewRow) -> (r: Result<i32, StoreError>)
        requires
            old(self).wf(),
        ensures
            final(self).wf(),
            old(self)@.len() < i32::MAX ==> r == Ok::<i32, StoreError>(
                (old(self)@.len() + 1) as i32,
            ) && final(self)@ == old(self)@.push(
                StudentView { id: (old(self)@.len() + 1) as i32, row: row@ },
            ),
            old(self)@.len() >= i32::MAX ==> r == Err::<i32, StoreError>(StoreError::IdsExhausted)
                && final(self)@ == old(self)@,
    {
        let n = self.rows.len();
        if n >= 2147483647 {
            return Err(StoreError::IdsExhausted);
        }
        let id = (n + 1) as i32;
        let ghost before = self.rows@;
        self.rows.push(Student::from_row(id, row));
        assert(self.rows@ =~= before.push(self.rows@[n as int]));
        assert(self@ =~= old(self)@.push(StudentView { id, row: row@ }));
        Ok(id)
    }

    /// Every stored row, in insertion order.
    pub fn list(&self) -> (r: Vec<Student>)
        ensures
            r@.map_values(|s: Student| s@) == self@,
    {
        let mut out: Vec<Student> = Vec::new();
        let mut i: usize = 0;
        while i < self.rows.len()
            invariant
                i <= self.rows@.len(),
                out@.len() == i,
                forall|j: int| 0 <= j < i ==> (#[trigger] out@[j])@ == self.rows@[j]@,
            decreases self.rows@.len() - i,
        {
            out.push(self.rows[i].duplicate());
            i = i + 1;
        }
        assert(out@.map_values(|s: Student| s@) =~= self@);
        out
    }
}

/// Replaying inserts into an empty store lists every inserted row exactly
/// once, in order, under distinct ids, and nothing else: after n inserts
/// the listing holds exactly n rows.
pub proof fn lemma_listing_is_every_insert(rows: Seq<RowView>)
    requires
        rows.len() <= i32::MAX,
    ensures
        replay(rows).len() == rows.len(),
        forall|k: int| 0 <= k < rows.len() ==> (#[trigger] replay(rows)[k]).row == rows[k],
        forall|k: int| 0 <= k < rows.len() ==> (#[trigger] replay(rows)[k]).id == k + 1,
        forall|j: int, k: int|
            0 <= j < k < rows.len() ==> (#[trigger] replay(rows)[j]).id != (#[trigger] replay(
                rows,
            )[k]).id,
    decreases rows.len(),
{
    if rows.len() > 0 {
        let prev = rows.drop_last();
        lemma_listing_is_every_insert(prev);
        assert forall|k: int| 0 <= k < rows.len() implies (#[trigger] replay(rows)[k]).row
            == rows[k] && replay(rows)[k].id == k + 1 by {
            if k < rows.len() - 1 {
                assert(replay(rows)[k] == replay(prev)[k]);
                assert(prev[k] == rows[k]);
            }
        }
    }
}

/// A store filled by inserts from empty lists what `replay` says: each
/// successful insert extends the listing exactly as one more replay step.
pub proof fn lemma_insert_is_replay_step(before: Seq<StudentView>, rows: Seq<RowView>, row: RowView)
    requires
        before == replay(rows),
        rows.len() < i32::MAX,
    ensures
        before.push(StudentView { id: (before.len() + 1) as i32, row }) == replay(rows.push(row)),
{
    lemma_listing_is_every_insert(rows);
    assert(rows.push(row).drop_last() =~= rows);
}

} // verus!
