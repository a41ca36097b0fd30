//! Mathematical model of the to-do table: a finite map from record id to the
//! record's task text and completion flag, together with the high-water mark
//! of ids ever assigned, and the laws the operations obey over that model.

use vstd::prelude::*;

verus! {

/// One to-do record as handed to callers: the id the store assigned, the
/// user-supplied task text, and the completion flag.
#[derive(Clone, Debug)]
pub struct Todo {
    pub id: i64,
    pub task: String,
    pub completed: bool,
}

/// Why an operation on the store failed.
#[derive(Clone, Copy, Debug, PartialEq, Eq, Structural)]
pub enum StoreError {
    /// The database file could not be opened, or its table could not be
    /// created: the store is unusable and must not serve requests.
    Init,
    /// A single operation failed (an input-output error, or a row that does
    /// not decode); the table itself is unchanged by the failed operation.
    Query,
}

/// A task row in the model: the task text and the completion flag.
pub type Row = (Seq<char>, bool);

/// The table in the model: each record id maps to its row.
pub type Rows = Map<int, Row>;

/// The table of a store in which nothing has ever been added.
pub open spec fn empty_rows() -> Rows {
    Map::empty()
}

/// A well-formed store state: finitely many records, the high-water mark
/// `high` is at least every id that has ever been in the table (and zero
/// where none has been positive), so every present id is at most `high`,
/// and `high` fits the id type.
pub open spec fn wf_state(rows: Rows, high: int) -> bool {
    &&& rows.dom().finite()
    &&& 0 <= high <= i64::MAX
    &&& forall|id: int| rows.dom().contains(id) ==> id <= high
}

/// The table after one add: a record with the next id, the supplied text and
/// a cleared completion flag joins it; every other record stays as it was.
pub open spec fn added(rows: Rows, high: int, task: Seq<char>) -> Rows {
    rows.insert(high + 1, (task, false))
}

/// The table after one toggle of a present id: that record's completion flag
/// is flipped, its text and every other record stay as they were.
pub open spec fn toggled(rows: Rows, id: int) -> Rows {
    rows.insert(id, (rows[id].0, !rows[id].1))
}

/// What a listing must look like: one record per table entry (no more, no
/// fewer, no duplicate ids), each carrying exactly the text and flag the
/// table holds for its id. No order is promised.
pub open spec fn list_matches(rows: Rows, s: Seq<Todo>) -> bool {
    &&& s.len() == rows.dom().len()
    &&& forall|i: int, j: int|
        0 <= i < s.len() && 0 <= j < s.len() && i != j ==> #[trigger] s[i].id != #[trigger] s[j].id
    &&& forall|i: int|
        0 <= i < s.len() ==> rows.dom().contains(#[trigger] s[i].id as int)
            && rows[s[i].id as int] == (s[i].task@, s[i].completed)
    &&& forall|id: int|
        #[trigger] rows.dom().contains(id) ==> exists|i: int|
            0 <= i < s.len() && #[trigger] s[i].id as int == id
}

/// The table and high-water mark after a whole sequence of adds, one record
/// per task, in order.
pub open spec fn adds_all(rows: Rows, high: int, tasks: Seq<Seq<char>>) -> (Rows, int)
    decreases tasks.len(),
{
    if tasks.len() == 0 {
        (rows, high)
    } else {
        adds_all(added(rows, high, tasks[0]), high + 1, tasks.drop_first())
    }
}

/// The listing holds a record with this id, text and flag.
pub open spec fn has_record(s: Seq<Todo>, id: int, task: Seq<char>, completed: bool) -> bool {
    exists|i: int|
        0 <= i < s.len() && (#[trigger] s[i]).id as int == id && s[i].task@ == task
            && s[i].completed == completed
}

/// Any sequence of adds puts exactly one record per add into the table, each
/// under a unique id that was never in the table before (all the new ids lie
/// past the old high-water mark), and leaves every prior record unchanged.
pub proof fn lemma_adds_all(rows: Rows, high: int, tasks: Seq<Seq<char>>)
    requires
        wf_state(rows, high),
        high + tasks.len() <= i64::MAX,
    ensures
        wf_state(adds_all(rows, high, tasks).0, adds_all(rows, high, tasks).1),
        adds_all(rows, high, tasks).1 == high + tasks.len(),
        adds_all(rows, high, tasks).0.dom().len() == rows.dom().len() + tasks.len(),
        forall|id: int|
            #[trigger] adds_all(rows, high, tasks).0.dom().contains(id) <==> rows.dom().contains(
                id,
            ) || high < id <= high + tasks.len(),
        forall|id: int|
            rows.dom().contains(id) ==> adds_all(rows, high, tasks).0[id] == #[trigger] rows[id],
        forall|k: int|
            0 <= k < tasks.len() ==> adds_all(rows, high, tasks).0[high + 1 + k] == (
            #[trigger] tasks[k],
            false,
            ),
    decreases tasks.len(),
{
    if tasks.len() == 0 {
    } else {
        let rows1 = added(rows, high, tasks[0]);
        let high1 = high + 1;
        assert(!rows.dom().contains(high1));
        assert(rows1.dom() =~= rows.dom().insert(high1));
        lemma_adds_all(rows1, high1, tasks.drop_first());
        assert(adds_all(rows, high, tasks) == adds_all(rows1, high1, tasks.drop_first()));
        assert forall|id: int| rows.dom().contains(id) implies adds_all(rows, high, tasks).0[id]
            == #[trigger] rows[id] by {
            assert(rows1.dom().contains(id));
            assert(id != high1);
            assert(rows1[id] == rows[id]);
        }
        assert forall|k: int| 0 <= k < tasks.len() implies adds_all(rows, high, tasks).0[high + 1
            + k] == (#[trigger] tasks[k], false) by {
            if k == 0 {
                assert(rows1.dom().contains(high1));
                assert(rows1[high1] == (tasks[0], false));
            } else {
                assert(tasks.drop_first()[k - 1] == tasks[k]);
                assert(adds_all(rows1, high1, tasks.drop_first()).0[high1 + 1 + (k - 1)] == (
                tasks.drop_first()[k - 1],
                false,
                ));
            }
        }
    }
}

/// An add followed by a successful listing: the listing holds a record with
/// the next id, the supplied text and a cleared completion flag.
pub proof fn lemma_add_then_list(rows: Rows, high: int, task: Seq<char>, s: Seq<Todo>)
    requires
        wf_state(rows, high),
        list_matches(added(rows, high, task), s),
    ensures
        has_record(s, high + 1, task, false),
{
    let after = added(rows, high, task);
    assert(after.dom().contains(high + 1));
    let i = choose|i: int| 0 <= i < s.len() && #[trigger] s[i].id as int == high + 1;
    assert(after[s[i].id as int] == (s[i].task@, s[i].completed));
    assert(after[high + 1] == (task, false));
}

/// A whole sequence of adds followed by a successful listing: the listing
/// has exactly one record per prior record plus one per add, no id twice,
/// and for each add a record with that add's fresh id and text, not yet
/// completed.
pub proof fn lemma_adds_then_list(rows: Rows, high: int, tasks: Seq<Seq<char>>, s: Seq<Todo>)
    requires
        wf_state(rows, high),
        high + tasks.len() <= i64::MAX,
        list_matches(adds_all(rows, high, tasks).0, s),
    ensures
        s.len() == rows.dom().len() + tasks.len(),
        forall|i: int, j: int|
            0 <= i < s.len() && 0 <= j < s.len() && i != j ==> #[trigger] s[i].id
                != #[trigger] s[j].id,
        forall|k: int|
            0 <= k < tasks.len() ==> has_record(s, high + 1 + k, #[trigger] tasks[k], false),
{
    lemma_adds_all(rows, high, tasks);
    let after = adds_all(rows, high, tasks).0;
    assert forall|k: int| 0 <= k < tasks.len() implies has_record(
        s,
        high + 1 + k,
        #[trigger] tasks[k],
        false,
    ) by {
        assert(after.dom().contains(high + 1 + k));
        let i = choose|i: int| 0 <= i < s.len() && #[trigger] s[i].id as int == high + 1 + k;
        assert(after[s[i].id as int] == (s[i].task@, s[i].completed));
        assert(after[high + 1 + k] == (tasks[k], false));
    }
}

/// A toggle of a present id flips exactly that record's completion flag: its
/// text stays, every other record stays, and no record joins or leaves.
pub proof fn lemma_toggle_effect(rows: Rows, id: int)
    requires
        rows.dom().contains(id),
    ensures
        toggled(rows, id).dom() == rows.dom(),
        toggled(rows, id)[id].0 == rows[id].0,
        toggled(rows, id)[id].1 == !rows[id].1,
        forall|j: int|
            rows.dom().contains(j) && j != id ==> toggled(rows, id)[j] == #[trigger] rows[j],
{
    assert(toggled(rows, id).dom() =~= rows.dom());
}

/// Toggling the same present id twice restores the table exactly.
pub proof fn lemma_toggle_twice(rows: Rows, id: int)
    requires
        rows.dom().contains(id),
    ensures
        toggled(toggled(rows, id), id) == rows,
{
    assert(toggled(toggled(rows, id), id) =~= rows);
}

/// A delete removes at most the one record with the given id: afterwards
/// that id is gone, every other record is exactly as it was, and deleting an
/// id that is not present leaves the table identical.
pub proof fn lemma_delete_effect(rows: Rows, id: int)
    ensures
        !rows.remove(id).dom().contains(id),
        forall|j: int|
            j != id ==> (rows.remove(id).dom().contains(j) <==> #[trigger] rows.dom().contains(
                j,
            )),
        forall|j: int|
            j != id && rows.dom().contains(j) ==> rows.remove(id)[j] == #[trigger] rows[j],
        !rows.dom().contains(id) ==> rows.remove(id) == rows,
{
    if !rows.dom().contains(id) {
        assert(rows.remove(id) =~= rows);
    }
}

} // verus!
