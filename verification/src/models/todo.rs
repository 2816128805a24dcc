use vstd::prelude::*;

verus! {

/// An instant in time, counted in whole seconds since the Unix epoch.
///
/// The store keeps its time columns as integer epoch seconds; this type
/// carries that count through the library unchanged, leaving any calendar or
/// time-zone presentation to the caller.
#[derive(Clone, Copy, Debug, PartialEq, Eq, Structural)]
pub struct Timestamp {
    pub secs: i64,
}

/// A persisted todo record, as decoded from one row of the todos table.
///
/// The identifier and both time columns are assigned by the store; the
/// completed timestamp is absent while the item is incomplete.
#[derive(Debug)]
pub struct TodoItem {
    pub id: i64,
    pub user_id: i64,
    pub task: String,
    pub completed: bool,
    pub created_datetime: Timestamp,
    pub completed_datetime: Option<Timestamp>,
}

/// The fields a caller may supply when creating or updating a todo record:
/// no identifier and no store-assigned columns.
#[derive(Debug)]
pub struct TodoItemDTO {
    pub user_id: i64,
    pub task: String,
}

/// The mathematical image of one row of the todos table.
pub ghost struct TodoRow {
    pub id: int,
    pub user_id: int,
    pub task: Seq<char>,
    pub completed: bool,
    pub created_at: int,
    pub completed_at: Option<int>,
}

impl View for TodoItem {
    type V = TodoRow;

    open spec fn view(&self) -> TodoRow {
        TodoRow {
            id: self.id as int,
            user_id: self.user_id as int,
            task: self.task@,
            completed: self.completed,
            created_at: self.created_datetime.secs as int,
            completed_at: match self.completed_datetime {
                Some(t) => Some(t.secs as int),
                None => None,
            },
        }
    }
}

/// Some row of `rows` carries the identifier `id`.
pub open spec fn has_todo(rows: Seq<TodoRow>, id: int) -> bool {
    exists|i: int| 0 <= i < rows.len() && rows[i].id == id
}

/// The row of `rows` carrying `id`; meaningful when `has_todo(rows, id)`
/// holds and identifiers are distinct.
pub open spec fn todo_at(rows: Seq<TodoRow>, id: int) -> TodoRow {
    rows[choose|i: int| 0 <= i < rows.len() && rows[i].id == id]
}

/// Every identifier in `rows` lies strictly below `bound`.
pub open spec fn todo_ids_below(rows: Seq<TodoRow>, bound: int) -> bool {
    forall|i: int| 0 <= i < rows.len() ==> rows[i].id < bound
}

/// Identifiers grow strictly along `rows`; rows therefore stand in the order
/// the store assigned their identifiers, and no identifier repeats.
pub open spec fn todo_ids_increasing(rows: Seq<TodoRow>) -> bool {
    forall|i: int, j: int| 0 <= i < j < rows.len() ==> rows[i].id < rows[j].id
}

/// How many rows of `rows` carry the identifier `id`.
pub open spec fn todo_count(rows: Seq<TodoRow>, id: int) -> int
    decreases rows.len(),
{
    if rows.len() == 0 {
        0
    } else {
        todo_count(rows.drop_last(), id) + if rows.last().id == id {
            1int
        } else {
            0int
        }
    }
}

/// `row` with its task text replaced and every other field kept.
pub open spec fn with_task(row: TodoRow, task: Seq<char>) -> TodoRow {
    TodoRow { task: task, ..row }
}

/// `rows` with the task text of every row carrying `id` replaced.
pub open spec fn retask_rows(rows: Seq<TodoRow>, id: int, task: Seq<char>) -> Seq<TodoRow> {
    Seq::new(rows.len(), |i: int| if rows[i].id == id { with_task(rows[i], task) } else { rows[i] })
}

/// `row` with its completion flag and completion time replaced.
pub open spec fn with_completion(row: TodoRow, completed: bool, at: Option<int>) -> TodoRow {
    TodoRow { completed: completed, completed_at: at, ..row }
}

/// `rows` with the completion sub-state of every row carrying `id` replaced.
pub open spec fn set_completion(rows: Seq<TodoRow>, id: int, completed: bool, at: Option<int>) -> Seq<TodoRow> {
    Seq::new(
        rows.len(),
        |i: int| if rows[i].id == id { with_completion(rows[i], completed, at) } else { rows[i] },
    )
}

/// `rows` without the rows carrying `id`, in unchanged order.
pub open spec fn remove_todo(rows: Seq<TodoRow>, id: int) -> Seq<TodoRow>
    decreases rows.len(),
{
    if rows.len() == 0 {
        Seq::empty()
    } else if rows.last().id == id {
        remove_todo(rows.drop_last(), id)
    } else {
        remove_todo(rows.drop_last(), id).push(rows.last())
    }
}

/// The rows of `rows` owned by `user_id`, in unchanged order.
pub open spec fn todos_of_user(rows: Seq<TodoRow>, user_id: int) -> Seq<TodoRow>
    decreases rows.len(),
{
    if rows.len() == 0 {
        Seq::empty()
    } else if rows.last().user_id == user_id {
        todos_of_user(rows.drop_last(), user_id).push(rows.last())
    } else {
        todos_of_user(rows.drop_last(), user_id)
    }
}

/// An identifier absent from `rows` is absent from its last row and from the
/// rows before it.
pub proof fn lemma_todo_absent_prefix(rows: Seq<TodoRow>, id: int)
    requires
        !has_todo(rows, id),
        rows.len() > 0,
    ensures
        rows.last().id != id,
        !has_todo(rows.drop_last(), id),
{
    assert(rows[rows.len() - 1].id != id);
    if has_todo(rows.drop_last(), id) {
        let i = choose|i: int| 0 <= i < rows.drop_last().len() && rows.drop_last()[i].id == id;
        assert(rows.drop_last()[i] == rows[i]);
        assert(has_todo(rows, id));
    }
}

/// No row carries an absent identifier.
pub proof fn lemma_todo_count_absent(rows: Seq<TodoRow>, id: int)
    requires
        !has_todo(rows, id),
    ensures
        todo_count(rows, id) == 0,
    decreases rows.len(),
{
    if rows.len() > 0 {
        lemma_todo_absent_prefix(rows, id);
        lemma_todo_count_absent(rows.drop_last(), id);
    }
}

/// With strictly growing identifiers, a present identifier is carried by
/// exactly one row.
pub proof fn lemma_todo_count_unique(rows: Seq<TodoRow>, id: int)
    requires
        todo_ids_increasing(rows),
        has_todo(rows, id),
    ensures
        todo_count(rows, id) == 1,
    decreases rows.len(),
{
    let i = choose|i: int| 0 <= i < rows.len() && rows[i].id == id;
    if i == rows.len() - 1 {
        assert(rows.last().id == id);
        assert(!has_todo(rows.drop_last(), id)) by {
            if has_todo(rows.drop_last(), id) {
                let k = choose|k: int|
                    0 <= k < rows.drop_last().len() && rows.drop_last()[k].id == id;
                assert(rows.drop_last()[k] == rows[k]);
                assert(rows[k].id < rows[i].id);
            }
        };
        lemma_todo_count_absent(rows.drop_last(), id);
    } else {
        assert(rows.last().id != id) by {
            assert(rows[i].id < rows[rows.len() - 1].id);
        };
        assert(todo_ids_increasing(rows.drop_last())) by {
            assert forall|a: int, b: int|
                0 <= a < b < rows.drop_last().len() implies rows.drop_last()[a].id
                < rows.drop_last()[b].id by {
                assert(rows.drop_last()[a] == rows[a]);
                assert(rows.drop_last()[b] == rows[b]);
            };
        };
        assert(has_todo(rows.drop_last(), id)) by {
            assert(rows.drop_last()[i] == rows[i]);
        };
        lemma_todo_count_unique(rows.drop_last(), id);
    }
}

/// With strictly growing identifiers, any row carrying `id` is the row
/// `todo_at` selects.
pub proof fn lemma_todo_at_unique(rows: Seq<TodoRow>, id: int, i: int)
    requires
        todo_ids_increasing(rows),
        0 <= i < rows.len(),
        rows[i].id == id,
    ensures
        has_todo(rows, id),
        todo_at(rows, id) == rows[i],
{
    assert(has_todo(rows, id));
    assert forall|c: int| 0 <= c < rows.len() && (#[trigger] rows[c]).id == id implies c == i by {
        if c < i {
            assert(rows[c].id < rows[i].id);
        }
        if c > i {
            assert(rows[i].id < rows[c].id);
        }
    };
    assert(todo_at(rows, id) == rows[i]);
}

/// Replacing task text at an absent identifier changes nothing.
pub proof fn lemma_retask_absent(rows: Seq<TodoRow>, id: int, task: Seq<char>)
    requires
        !has_todo(rows, id),
    ensures
        retask_rows(rows, id, task) == rows,
{
    assert forall|i: int| 0 <= i < rows.len() implies retask_rows(rows, id, task)[i] == rows[i] by {
        assert(rows[i].id != id);
    };
    assert(retask_rows(rows, id, task) =~= rows);
}

/// Replacing the completion sub-state at an absent identifier changes
/// nothing.
pub proof fn lemma_set_completion_absent(rows: Seq<TodoRow>, id: int, completed: bool, at: Option<int>)
    requires
        !has_todo(rows, id),
    ensures
        set_completion(rows, id, completed, at) == rows,
{
    assert forall|i: int|
        0 <= i < rows.len() implies set_completion(rows, id, completed, at)[i] == rows[i] by {
        assert(rows[i].id != id);
    };
    assert(set_completion(rows, id, completed, at) =~= rows);
}

/// Removing an absent identifier changes nothing.
pub proof fn lemma_remove_todo_noop(rows: Seq<TodoRow>, id: int)
    requires
        !has_todo(rows, id),
    ensures
        remove_todo(rows, id) == rows,
    decreases rows.len(),
{
    if rows.len() == 0 {
        assert(remove_todo(rows, id) =~= rows);
    } else {
        lemma_todo_absent_prefix(rows, id);
        lemma_remove_todo_noop(rows.drop_last(), id);
        assert(rows.drop_last().push(rows.last()) =~= rows);
    }
}

/// Removal keeps every identifier bound that held before.
pub proof fn lemma_remove_todo_below(rows: Seq<TodoRow>, id: int, bound: int)
    requires
        todo_ids_below(rows, bound),
    ensures
        todo_ids_below(remove_todo(rows, id), bound),
    decreases rows.len(),
{
    if rows.len() > 0 {
        assert(todo_ids_below(rows.drop_last(), bound)) by {
            assert forall|i: int|
                0 <= i < rows.drop_last().len() implies (#[trigger] rows.drop_last()[i]).id
                < bound by {
                assert(rows.drop_last()[i] == rows[i]);
            };
        };
        lemma_remove_todo_below(rows.drop_last(), id, bound);
        if rows.last().id != id {
            let r0 = remove_todo(rows.drop_last(), id);
            let out = r0.push(rows.last());
            assert forall|i: int| 0 <= i < out.len() implies (#[trigger] out[i]).id < bound by {
                if i < out.len() - 1 {
                    assert(out[i] == r0[i]);
                } else {
                    assert(out[i] == rows.last());
                    assert(rows[rows.len() - 1].id < bound);
                }
            };
        }
    }
}

/// Removal keeps identifiers strictly growing.
pub proof fn lemma_remove_todo_increasing(rows: Seq<TodoRow>, id: int)
    requires
        todo_ids_increasing(rows),
    ensures
        todo_ids_increasing(remove_todo(rows, id)),
    decreases rows.len(),
{
    if rows.len() > 0 {
        let s = rows.drop_last();
        assert(todo_ids_increasing(s)) by {
            assert forall|a: int, b: int|
                0 <= a < b < s.len() implies (#[trigger] s[a]).id < (#[trigger] s[b]).id by {
                assert(s[a] == rows[a]);
                assert(s[b] == rows[b]);
            };
        };
        lemma_remove_todo_increasing(s, id);
        if rows.last().id != id {
            assert(todo_ids_below(s, rows.last().id)) by {
                assert forall|i: int|
                    0 <= i < s.len() implies (#[trigger] s[i]).id < rows.last().id by {
                    assert(s[i] == rows[i]);
                    assert(rows[i].id < rows[rows.len() - 1].id);
                };
            };
            lemma_remove_todo_below(s, id, rows.last().id);
            let r0 = remove_todo(s, id);
            let out = r0.push(rows.last());
            assert forall|a: int, b: int|
                0 <= a < b < out.len() implies (#[trigger] out[a]).id < (#[trigger] out[b]).id by {
                if b < out.len() - 1 {
                    assert(out[a] == r0[a]);
                    assert(out[b] == r0[b]);
                } else {
                    assert(out[a] == r0[a]);
                    assert(r0[a].id < rows.last().id);
                    assert(out[b] == rows.last());
                }
            };
        }
    }
}

/// Removal leaves no row carrying the removed identifier behind.
pub proof fn lemma_remove_todo_absent(rows: Seq<TodoRow>, id: int)
    ensures
        !has_todo(remove_todo(rows, id), id),
    decreases rows.len(),
{
    if rows.len() == 0 {
        assert(remove_todo(rows, id).len() == 0);
    } else {
        lemma_remove_todo_absent(rows.drop_last(), id);
        if rows.last().id != id {
            let r0 = remove_todo(rows.drop_last(), id);
            let out = r0.push(rows.last());
            if has_todo(out, id) {
                let i = choose|i: int| 0 <= i < out.len() && out[i].id == id;
                if i < out.len() - 1 {
                    assert(out[i] == r0[i]);
                    assert(has_todo(r0, id));
                } else {
                    assert(out[i] == rows.last());
                }
            }
        }
    }
}

/// Deleting an identifier is idempotent in effect: after one removal the
/// identifier is gone, so a second removal touches zero rows and leaves the
/// store exactly as the first left it.
pub proof fn lemma_delete_idempotent(rows: Seq<TodoRow>, id: int)
    ensures
        !has_todo(remove_todo(rows, id), id),
        todo_count(remove_todo(rows, id), id) == 0,
        remove_todo(remove_todo(rows, id), id) == remove_todo(rows, id),
{
    lemma_remove_todo_absent(rows, id);
    lemma_todo_count_absent(remove_todo(rows, id), id);
    lemma_remove_todo_noop(remove_todo(rows, id), id);
}

/// A saved record is the record its new identifier fetches: with strictly
/// growing identifiers, the row just appended is the row its identifier
/// selects.
pub proof fn lemma_save_then_select(rows0: Seq<TodoRow>, rows1: Seq<TodoRow>)
    requires
        todo_ids_increasing(rows1),
        rows1.len() == rows0.len() + 1,
        rows1.drop_last() == rows0,
    ensures
        has_todo(rows1, rows1.last().id),
        todo_at(rows1, rows1.last().id) == rows1.last(),
{
    lemma_todo_at_unique(rows1, rows1.last().id, rows1.len() - 1);
}

/// Updating an existing record and fetching it again reflects exactly the
/// new task text; every other field of that record, and every other record,
/// is unchanged.
pub proof fn lemma_update_then_select(rows: Seq<TodoRow>, id: int, task: Seq<char>)
    requires
        todo_ids_increasing(rows),
        has_todo(rows, id),
    ensures
        has_todo(retask_rows(rows, id, task), id),
        todo_at(retask_rows(rows, id, task), id) == with_task(todo_at(rows, id), task),
        forall|i: int|
            0 <= i < rows.len() && (#[trigger] rows[i]).id != id ==> retask_rows(rows, id, task)[i]
                == rows[i],
{
    let rows2 = retask_rows(rows, id, task);
    let i = choose|i: int| 0 <= i < rows.len() && rows[i].id == id;
    lemma_todo_at_unique(rows, id, i);
    assert(rows2[i] == with_task(rows[i], task));
    assert(todo_ids_increasing(rows2)) by {
        assert forall|a: int, b: int|
            0 <= a < b < rows2.len() implies (#[trigger] rows2[a]).id < (#[trigger] rows2[b]).id by {
            assert(rows2[a].id == rows[a].id);
            assert(rows2[b].id == rows[b].id);
        };
    };
    lemma_todo_at_unique(rows2, id, i);
}

/// A missing identifier is no hit: no row carries it, replacing its task
/// changes nothing, and removing it changes nothing.
pub proof fn lemma_missing_id_effects(rows: Seq<TodoRow>, id: int, task: Seq<char>)
    requires
        !has_todo(rows, id),
    ensures
        todo_count(rows, id) == 0,
        retask_rows(rows, id, task) == rows,
        remove_todo(rows, id) == rows,
{
    lemma_todo_count_absent(rows, id);
    lemma_retask_absent(rows, id, task);
    lemma_remove_todo_noop(rows, id);
}

/// Completing and then un-completing an identifier restores the completion
/// sub-state: on rows where that identifier is not completed, the round
/// trip is the identity.
pub proof fn lemma_complete_uncomplete_round_trip(rows: Seq<TodoRow>, id: int, t: int)
    requires
        forall|i: int|
            0 <= i < rows.len() && (#[trigger] rows[i]).id == id ==> rows[i].completed == false
                && rows[i].completed_at is None,
    ensures
        set_completion(set_completion(rows, id, true, Some(t)), id, false, None) == rows,
{
    let s1 = set_completion(rows, id, true, Some(t));
    let s2 = set_completion(s1, id, false, None);
    assert forall|i: int| 0 <= i < rows.len() implies s2[i] == rows[i] by {
        assert(s1[i].id == rows[i].id);
        if rows[i].id == id {
            assert(s1[i] == with_completion(rows[i], true, Some(t)));
            assert(s2[i] == with_completion(s1[i], false, None));
        }
    };
    assert(s2 =~= rows);
}

/// The rows kept for one user are exactly that user's rows: each kept row
/// is owned by the user, and a row is kept if and only if it stands in the
/// table and is owned by the user; their order is the table's.
pub proof fn lemma_todos_of_user_exact(rows: Seq<TodoRow>, user_id: int)
    ensures
        forall|k: int|
            0 <= k < todos_of_user(rows, user_id).len() ==> (#[trigger] todos_of_user(
                rows,
                user_id,
            )[k]).user_id == user_id,
        forall|r: TodoRow| #[trigger]
            todos_of_user(rows, user_id).contains(r) <==> rows.contains(r) && r.user_id == user_id,
    decreases rows.len(),
{
    let out = todos_of_user(rows, user_id);
    if rows.len() == 0 {
        assert forall|r: TodoRow| !rows.contains(r) by {
            if rows.contains(r) {
                let i = choose|i: int| 0 <= i < rows.len() && rows[i] == r;
            }
        };
    } else {
        let s = rows.drop_last();
        let x = rows.last();
        lemma_todos_of_user_exact(s, user_id);
        let sub = todos_of_user(s, user_id);
        assert forall|k: int| 0 <= k < out.len() implies (#[trigger] out[k]).user_id == user_id by {
            if x.user_id == user_id {
                if k < out.len() - 1 {
                    assert(out[k] == sub[k]);
                } else {
                    assert(out[k] == x);
                }
            }
        };
        assert forall|r: TodoRow| #[trigger]
            out.contains(r) <==> rows.contains(r) && r.user_id == user_id by {
            // membership in `rows` splits over the last row
            assert(rows.contains(r) <==> s.contains(r) || r == x) by {
                if rows.contains(r) {
                    let i = choose|i: int| 0 <= i < rows.len() && rows[i] == r;
                    if i < rows.len() - 1 {
                        assert(s[i] == rows[i]);
                        assert(s.contains(r));
                    }
                }
                if s.contains(r) {
                    let i = choose|i: int| 0 <= i < s.len() && s[i] == r;
                    assert(rows[i] == s[i]);
                    assert(rows.contains(r));
                }
                if r == x {
                    assert(rows[rows.len() - 1] == r);
                    assert(rows.contains(r));
                }
            };
            if x.user_id == user_id {
                // membership in `out` splits over the appended row
                assert(out.contains(r) <==> sub.contains(r) || r == x) by {
                    if out.contains(r) {
                        let i = choose|i: int| 0 <= i < out.len() && out[i] == r;
                        if i < out.len() - 1 {
                            assert(sub[i] == out[i]);
                            assert(sub.contains(r));
                        }
                    }
                    if sub.contains(r) {
                        let i = choose|i: int| 0 <= i < sub.len() && sub[i] == r;
                        assert(out[i] == sub[i]);
                        assert(out.contains(r));
                    }
                    if r == x {
                        assert(out[out.len() - 1] == r);
                        assert(out.contains(r));
                    }
                };
            }
        };
    }
}

} // verus!
