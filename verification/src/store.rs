//! A verified model of the `task` table and of the four query-layer
//! operations over it: list, get by id, insert with a server-assigned id, and
//! full-replace update keyed by id. The storage engine itself lives behind
//! the trusted calls in `db`; this module pins down, and proves, what those
//! four operations mean over a table held as plain values.

use vstd::prelude::*;
use crate::task::{Task, TaskReq};

verus! {

/// The rows that match an id, in table order. Get-by-id returns exactly this:
/// absence is an empty sequence, never an error.
pub open spec fn tasks_with_id(s: Seq<Task>, id: u32) -> Seq<Task>
    decreases s.len(),
{
    if s.len() == 0 {
        Seq::empty()
    } else {
        let rest = tasks_with_id(s.drop_last(), id);
        if s.last().id == id {
            rest.push(s.last())
        } else {
            rest
        }
    }
}

/// The table after a full-replace update: every row whose id matches `t.id`
/// becomes `t`, every other row is untouched. No row is added or removed,
/// so an update on an absent id changes nothing.
pub open spec fn with_task_replaced(s: Seq<Task>, t: Task) -> Seq<Task> {
    s.map_values(|x: Task| if x.id == t.id { t } else { x })
}

/// The task a create request turns into once the table assigns `id`:
/// the request's three text fields under that id and nothing else.
pub open spec fn assigned_task(req: TaskReq, id: u32) -> Task {
    Task { id, task: req.task, time: req.time, subject: req.subject }
}

/// The `task` table as plain values: its rows, and the id the next insert
/// will be assigned (the auto-increment counter).
pub struct TaskTable {
    pub tasks: Vec<Task>,
    pub next_id: u32,
}

impl TaskTable {
    /// Well-formedness: ids are assigned from 1 upwards, stay below the
    /// counter, and no two rows share one.
    pub open spec fn wf(self) -> bool {
        &&& 1 <= self.next_id
        &&& forall|i: int|
            0 <= i < self.tasks@.len() ==> 1 <= (#[trigger] self.tasks@[i]).id < self.next_id
        &&& forall|i: int, j: int|
            #![trigger self.tasks@[i], self.tasks@[j]]
            0 <= i < j < self.tasks@.len() ==> self.tasks@[i].id != self.tasks@[j].id
    }

    /// An empty table whose first insert will assign id 1.
    pub fn new() -> (t: TaskTable)
        ensures
            t.wf(),
            t.tasks@ == Seq::<Task>::empty(),
            t.next_id == 1,
    {
        let t = TaskTable { tasks: Vec::new(), next_id: 1 };
        proof {
            assert(t.tasks@ =~= Seq::<Task>::empty());
        }
        t
    }

    /// Returns every row, in table order, leaving the table untouched.
    pub fn list_tasks(&self) -> (r: Vec<Task>)
        ensures
            r@ == self.tasks@,
    {
        let mut r: Vec<Task> = Vec::new();
        let mut i: usize = 0;
        while i < self.tasks.len()
            invariant
                i <= self.tasks@.len(),
                r@ == self.tasks@.take(i as int),
            decreases self.tasks@.len() - i,
        {
            r.push(self.tasks[i].clone());
            proof {
                assert(self.tasks@.take(i + 1 as int) =~= self.tasks@.take(i as int).push(
                    self.tasks@[i as int],
                ));
            }
            i = i + 1;
        }
        proof {
            assert(self.tasks@.take(self.tasks@.len() as int) =~= self.tasks@);
        }
        r
    }

    /// Returns exactly the rows whose id matches: the one such row when the
    /// id is present, and an empty vector — not an error — when it is not.
    /// Over a well-formed table the result never holds more than one row.
    pub fn get_task_by_id(&self, id: u32) -> (r: Vec<Task>)
        ensures
            r@ == tasks_with_id(self.tasks@, id),
            self.wf() ==> r@.len() <= 1,
    {
        proof {
            if self.wf() {
                lemma_get_at_most_one(self.tasks@, id);
            }
        }
        let mut r: Vec<Task> = Vec::new();
        let mut i: usize = 0;
        while i < self.tasks.len()
            invariant
                i <= self.tasks@.len(),
                r@ == tasks_with_id(self.tasks@.take(i as int), id),
            decreases self.tasks@.len() - i,
        {
            if self.tasks[i].id == id {
                r.push(self.tasks[i].clone());
            }
            proof {
                let pre = self.tasks@.take(i as int);
                let post = self.tasks@.take(i + 1 as int);
                assert(post.drop_last() =~= pre);
                assert(post.last() == self.tasks@[i as int]);
            }
            i = i + 1;
        }
        proof {
            assert(self.tasks@.take(self.tasks@.len() as int) =~= self.tasks@);
        }
        r
    }

    /// Inserts the request's fields as a new row under the table-assigned id
    /// `next_id` — any id the client might have had in mind is ignored, since
    /// the request carries none — advances the counter, and returns the
    /// single created row, id filled in.
    pub fn insert_task(&mut self, req: TaskReq) -> (r: Vec<Task>)
        requires
            old(self).wf(),
            old(self).next_id < u32::MAX,
        ensures
            final(self).wf(),
            final(self).tasks@ == old(self).tasks@.push(assigned_task(req, old(self).next_id)),
            final(self).next_id == old(self).next_id + 1,
            r@ == seq![assigned_task(req, old(self).next_id)],
    {
        let id = self.next_id;
        let t = Task { id, task: req.task, time: req.time, subject: req.subject };
        let created = t.clone();
        self.tasks.push(t);
        self.next_id = self.next_id + 1;
        let mut r: Vec<Task> = Vec::new();
        r.push(created);
        proof {
            assert(r@ =~= seq![assigned_task(req, old(self).next_id)]);
        }
        r
    }

    /// Replaces the three text fields of the row whose id matches `t.id`, if
    /// any, and echoes the input back as a single-row result whether or not a
    /// row matched: the caller cannot tell "updated" from "no such id" here,
    /// by design.
    pub fn update_task(&mut self, t: Task) -> (r: Vec<Task>)
        ensures
            final(self).tasks@ == with_task_replaced(old(self).tasks@, t),
            final(self).next_id == old(self).next_id,
            old(self).wf() ==> final(self).wf(),
            r@ == seq![t],
    {
        let echoed = t.clone();
        let mut i: usize = 0;
        while i < self.tasks.len()
            invariant
                i <= self.tasks@.len(),
                self.tasks@.len() == old(self).tasks@.len(),
                self.next_id == old(self).next_id,
                forall|j: int|
                    0 <= j < i ==> self.tasks@[j] == (if old(self).tasks@[j].id == t.id {
                        t
                    } else {
                        old(self).tasks@[j]
                    }),
                forall|j: int| i <= j < self.tasks@.len() ==> self.tasks@[j] == old(self).tasks@[j],
            decreases self.tasks@.len() - i,
        {
            if self.tasks[i].id == t.id {
                let replacement = t.clone();
                self.tasks[i] = replacement;
            }
            i = i + 1;
        }
        proof {
            assert(self.tasks@ =~= with_task_replaced(old(self).tasks@, t));
            assert forall|k: int| 0 <= k < self.tasks@.len() implies self.tasks@[k].id == old(
                self,
            ).tasks@[k].id by {}
        }
        let mut r: Vec<Task> = Vec::new();
        r.push(echoed);
        proof {
            assert(r@ =~= seq![t]);
        }
        r
    }
}

/// Get-by-id over rows none of which carry the id comes back empty:
/// "not found" is the empty sequence, not an error.
pub proof fn lemma_get_missing_id_empty(s: Seq<Task>, id: u32)
    requires
        forall|i: int| 0 <= i < s.len() ==> (#[trigger] s[i]).id != id,
    ensures
        tasks_with_id(s, id) == Seq::<Task>::empty(),
    decreases s.len(),
{
    if s.len() == 0 {
        assert(tasks_with_id(s, id) =~= Seq::<Task>::empty());
    } else {
        assert(forall|i: int|
            0 <= i < s.drop_last().len() ==> (#[trigger] s.drop_last()[i]).id != id);
        lemma_get_missing_id_empty(s.drop_last(), id);
        assert(s.last().id != id);
    }
}

/// Where no two rows share an id — as in any well-formed table — get-by-id
/// returns zero rows or one, never more.
pub proof fn lemma_get_at_most_one(s: Seq<Task>, id: u32)
    requires
        forall|i: int, j: int|
            #![trigger s[i], s[j]]
            0 <= i < j < s.len() ==> s[i].id != s[j].id,
    ensures
        tasks_with_id(s, id).len() <= 1,
    decreases s.len(),
{
    if s.len() > 0 {
        let rest = s.drop_last();
        lemma_get_at_most_one(rest, id);
        if s.last().id == id {
            assert(forall|i: int|
                0 <= i < rest.len() ==> (#[trigger] rest[i]).id != id);
            lemma_get_missing_id_empty(rest, id);
        }
    }
}

/// Round trip: creating a task over a well-formed table and then getting the
/// assigned id back yields exactly the created row — the request's fields
/// under the assigned, non-zero id — and nothing else.
pub proof fn lemma_create_then_get(s: Seq<Task>, next_id: u32, req: TaskReq)
    requires
        1 <= next_id,
        forall|i: int| 0 <= i < s.len() ==> (#[trigger] s[i]).id < next_id,
    ensures
        tasks_with_id(s.push(assigned_task(req, next_id)), next_id) == seq![
            assigned_task(req, next_id),
        ],
        assigned_task(req, next_id).id != 0,
        assigned_task(req, next_id).task == req.task,
        assigned_task(req, next_id).time == req.time,
        assigned_task(req, next_id).subject == req.subject,
{
    let t = assigned_task(req, next_id);
    let pushed = s.push(t);
    assert(pushed.drop_last() =~= s);
    assert(pushed.last() == t);
    lemma_get_missing_id_empty(s, next_id);
    assert(tasks_with_id(pushed, next_id) =~= seq![t]);
}

/// Reading is idempotent: with no intervening write, two listTasks results
/// over one table state are the same sequence, since `list_tasks` promises
/// each equals the table's rows and borrows the table immutably.
pub proof fn lemma_list_idempotent(table: TaskTable, first: Seq<Task>, second: Seq<Task>)
    requires
        first == table.tasks@,
        second == table.tasks@,
    ensures
        first == second,
{
}

/// Updating an id that no row carries affects zero rows — the table stays
/// exactly as it was — while the update still reports success by echoing its
/// input (see `update_task`'s unconditional result).
pub proof fn lemma_update_missing_id_no_change(s: Seq<Task>, t: Task)
    requires
        forall|i: int| 0 <= i < s.len() ==> (#[trigger] s[i]).id != t.id,
    ensures
        with_task_replaced(s, t) == s,
{
    assert(with_task_replaced(s, t) =~= s);
}

/// A create assigns the table's counter as the id, whatever the request
/// holds: any two requests created at the same table state receive the very
/// same, table-chosen id, so no client-supplied value can get through.
pub proof fn lemma_create_ignores_request(a: TaskReq, b: TaskReq, next_id: u32)
    ensures
        assigned_task(a, next_id).id == next_id,
        assigned_task(b, next_id).id == next_id,
{
}

/// Every row of a well-formed table carries a distinct id; since every
/// operation preserves well-formedness (see the `ensures` of `insert_task`
/// and `update_task`) and creates serialize at the store, concurrent creates
/// never hand out duplicate ids.
pub proof fn lemma_created_ids_distinct(table: TaskTable)
    requires
        table.wf(),
    ensures
        forall|i: int, j: int|
            #![trigger table.tasks@[i], table.tasks@[j]]
            0 <= i < j < table.tasks@.len() ==> table.tasks@[i].id != table.tasks@[j].id,
{
}

} // verus!
