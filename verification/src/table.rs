//! What the store's statements mean for the `tasks` table, and what the store
//! then gives back.
//!
//! SQLite's answers depend on the database file, which other processes may
//! write too, so no contract of the store claims them. The relations here
//! say what each of the store's statements does to the table when SQLite
//! carries it out as written and nobody else writes in between; the laws
//! below prove that, under exactly that condition, the store lists what was
//! saved, newest first, and forgets what was deleted.
use vstd::prelude::*;
use crate::db::{SqlCall, SqlValue};
use crate::storage::{
    insert_call, ok_tasks, task_of, Task, TaskRow, DELETE_SQL, INSERT_SQL, SELECT_ALL_SQL,
};

verus! {

/// A row of the `tasks` table as a mathematical value.
pub struct TaskRecord {
    pub id: int,
    pub text: Seq<char>,
    pub created_at: Seq<char>,
    pub image_path: Option<Seq<char>>,
}

/// The view of an optional text.
pub open spec fn opt_view(value: Option<String>) -> Option<Seq<char>> {
    match value {
        Some(t) => Some(t@),
        None => None,
    }
}

/// The record that a task row holds.
pub open spec fn record_of_row(row: TaskRow) -> TaskRecord {
    TaskRecord { id: row.0 as int, text: row.1@, created_at: row.2@, image_path: opt_view(row.3) }
}

/// The record that a task holds.
pub open spec fn record_of_task(task: Task) -> TaskRecord {
    TaskRecord {
        id: task.id as int,
        text: task.text@,
        created_at: task.created_at@,
        image_path: opt_view(task.image_path),
    }
}

/// `INSERT_SQL` with `text`, `created_at` and `image_path` carried out on
/// `before`: one new row, with an id above every id already there.
pub open spec fn inserted(
    before: Seq<TaskRecord>,
    text: Seq<char>,
    created_at: Seq<char>,
    image_path: Option<Seq<char>>,
    after: Seq<TaskRecord>,
) -> bool {
    exists|id: int|
        {
            &&& (forall|i: int| 0 <= i < before.len() ==> #[trigger] before[i].id < id)
            &&& after == before.push(
                TaskRecord { id, text, created_at, image_path },
            )
        }
}

/// `DELETE_SQL` with `id` carried out on `before`: the row with that id, if
/// any, is gone, and every other row stays in its place.
pub open spec fn deleted(before: Seq<TaskRecord>, id: int, after: Seq<TaskRecord>) -> bool {
    after == before.filter(|r: TaskRecord| r.id != id)
}

/// `SELECT_ALL_SQL` answered from `table`: every row read without error,
/// each row of the table exactly once, by strictly decreasing id.
pub open spec fn answered_newest_first(
    table: Seq<TaskRecord>,
    rows: Seq<Result<TaskRow, rusqlite::Error>>,
) -> bool {
    &&& rows.len() == table.len()
    &&& forall|i: int| 0 <= i < rows.len() ==> #[trigger] rows[i] is Ok
    &&& forall|r: TaskRecord|
        table.contains(r) <==> exists|i: int|
            0 <= i < rows.len() && #[trigger] record_of_row(rows[i]->Ok_0) == r
    &&& forall|i: int, j: int|
        0 <= i < j < rows.len() ==> (#[trigger] rows[i]->Ok_0).0 > (#[trigger] rows[j]->Ok_0).0
}

/// The screenshot path of an insert's third parameter.
pub open spec fn image_param(value: SqlValue) -> Option<Seq<char>> {
    match value {
        SqlValue::Text(p) => Some(p),
        _ => None,
    }
}

/// `call`, one of the store's calls, carried out by SQLite on the table
/// `before` as its statement says, leaving `after`: an insert or a delete
/// that succeeded changes the table as `inserted` and `deleted` say; a
/// listing that was answered leaves the table as it was and is answered
/// newest first. Other calls are not described.
pub open spec fn carried_out(before: Seq<TaskRecord>, call: SqlCall, after: Seq<TaskRecord>) -> bool {
    match call {
        SqlCall::Execute { sql, params, changed: Some(_) } => if sql == INSERT_SQL@ {
            &&& params.len() == 3
            &&& params[0] matches SqlValue::Text(text)
            &&& params[1] matches SqlValue::Text(created_at)
            &&& inserted(before, text, created_at, image_param(params[2]), after)
        } else if sql == DELETE_SQL@ {
            &&& params.len() == 1
            &&& params[0] matches SqlValue::Integer(id)
            &&& deleted(before, id, after)
        } else {
            false
        },
        SqlCall::QueryRows { sql, params, rows: Ok(rows) } => {
            &&& sql == SELECT_ALL_SQL@
            &&& params.len() == 0
            &&& after == before
            &&& answered_newest_first(before, rows)
        },
        _ => false,
    }
}

/// When every row was read without error, the store's tasks are those rows,
/// one for one, in order.
pub proof fn lemma_ok_tasks_all_ok(rows: Seq<Result<TaskRow, rusqlite::Error>>)
    requires
        forall|i: int| 0 <= i < rows.len() ==> #[trigger] rows[i] is Ok,
    ensures
        ok_tasks(rows).len() == rows.len(),
        forall|i: int|
            0 <= i < rows.len() ==> #[trigger] ok_tasks(rows)[i] == task_of(rows[i]->Ok_0),
    decreases rows.len(),
{
    if rows.len() > 0 {
        let front = rows.drop_last();
        assert forall|i: int| 0 <= i < front.len() implies #[trigger] front[i] is Ok by {
            assert(front[i] == rows[i]);
        }
        lemma_ok_tasks_all_ok(front);
        assert forall|i: int| 0 <= i < rows.len() implies #[trigger] ok_tasks(rows)[i] == task_of(
            rows[i]->Ok_0,
        ) by {
            if i < front.len() {
                assert(front[i] == rows[i]);
            }
        }
    }
}

/// What is saved is listed first: after a task is saved with `text`,
/// `created_at` and `image_path`, the next listing holds one task more than
/// before, and its first task is the saved one, verbatim, with an id above
/// every id that was there before. (Under the condition that SQLite carried
/// out the insert and answered the listing as written, with no other writer.)
proof fn lemma_saved_task_is_listed_first(
    table: Seq<TaskRecord>,
    text: Seq<char>,
    created_at: Seq<char>,
    image_path: Option<Seq<char>>,
    after_save: Seq<TaskRecord>,
    rows: Seq<Result<TaskRow, rusqlite::Error>>,
)
    requires
        inserted(table, text, created_at, image_path, after_save),
        answered_newest_first(after_save, rows),
    ensures
        ok_tasks(rows).len() == table.len() + 1,
        record_of_task(ok_tasks(rows)[0]).text == text,
        record_of_task(ok_tasks(rows)[0]).created_at == created_at,
        record_of_task(ok_tasks(rows)[0]).image_path == image_path,
        forall|i: int| 0 <= i < table.len() ==> table[i].id < ok_tasks(rows)[0].id,
{
    let id = choose|id: int|
        {
            &&& (forall|i: int| 0 <= i < table.len() ==> #[trigger] table[i].id < id)
            &&& after_save == table.push(TaskRecord { id, text, created_at, image_path })
        };
    let new = TaskRecord { id, text, created_at, image_path };
    assert(after_save[table.len() as int] == new);
    assert(after_save.contains(new));
    let k = choose|k: int| 0 <= k < rows.len() && #[trigger] record_of_row(rows[k]->Ok_0) == new;
    if k != 0 {
        let first = record_of_row(rows[0]->Ok_0);
        assert(after_save.contains(first));
        let m = choose|m: int| 0 <= m < after_save.len() && after_save[m] == first;
        assert((rows[0]->Ok_0).0 > (rows[k]->Ok_0).0);
        assert(first.id > new.id);
        assert(after_save.len() == table.len() + 1);
        if m < table.len() {
            assert(after_save[m] == table[m]);
            assert(table[m].id < id);
        } else {
            assert(after_save[m] == new);
        }
        assert(false);
    }
    lemma_ok_tasks_all_ok(rows);
    assert(ok_tasks(rows)[0] == task_of(rows[0]->Ok_0));
}

/// What is deleted is gone, and nothing else is: after the task `id` is
/// deleted, the next listing holds exactly the rows with another id.
/// (Under the condition that SQLite carried out the delete and answered the
/// listing as written, with no other writer.)
proof fn lemma_deleted_task_is_gone(
    table: Seq<TaskRecord>,
    id: int,
    after_delete: Seq<TaskRecord>,
    rows: Seq<Result<TaskRow, rusqlite::Error>>,
)
    requires
        deleted(table, id, after_delete),
        answered_newest_first(after_delete, rows),
    ensures
        forall|i: int|
            0 <= i < ok_tasks(rows).len() ==> #[trigger] ok_tasks(rows)[i].id != id && table.contains(
                record_of_task(ok_tasks(rows)[i]),
            ),
        forall|r: TaskRecord|
            table.contains(r) && r.id != id ==> exists|i: int|
                0 <= i < ok_tasks(rows).len() && #[trigger] record_of_task(ok_tasks(rows)[i]) == r,
{
    lemma_ok_tasks_all_ok(rows);
    assert forall|i: int| 0 <= i < ok_tasks(rows).len() implies #[trigger] ok_tasks(rows)[i].id
        != id && table.contains(record_of_task(ok_tasks(rows)[i])) by {
        let r = record_of_row(rows[i]->Ok_0);
        assert(record_of_task(ok_tasks(rows)[i]) == r);
        assert(after_delete.contains(r));
        table.lemma_filter_contains_rev(|r: TaskRecord| r.id != id, r);
    }
    assert forall|r: TaskRecord| table.contains(r) && r.id != id implies exists|i: int|
        0 <= i < ok_tasks(rows).len() && #[trigger] record_of_task(ok_tasks(rows)[i]) == r by {
        let m = choose|m: int| 0 <= m < table.len() && table[m] == r;
        table.lemma_filter_contains(|r: TaskRecord| r.id != id, m);
        assert(after_delete.contains(r));
        let k = choose|k: int| 0 <= k < rows.len() && #[trigger] record_of_row(rows[k]->Ok_0) == r;
        assert(record_of_task(ok_tasks(rows)[k]) == r);
    }
}

proof fn lemma_filter_keeps_all(s: Seq<TaskRecord>, id: int)
    requires
        forall|i: int| 0 <= i < s.len() ==> #[trigger] s[i].id != id,
    ensures
        s.filter(|r: TaskRecord| r.id != id) == s,
    decreases s.len(),
{
    reveal(Seq::filter);
    if s.len() > 0 {
        let front = s.drop_last();
        assert forall|i: int| 0 <= i < front.len() implies #[trigger] front[i].id != id by {
            assert(front[i] == s[i]);
        }
        lemma_filter_keeps_all(front, id);
        assert(front.push(s.last()) =~= s);
    }
}

/// Deleting an id that no task has changes nothing.
proof fn lemma_deleting_unknown_id_changes_nothing(
    table: Seq<TaskRecord>,
    id: int,
    after_delete: Seq<TaskRecord>,
)
    requires
        deleted(table, id, after_delete),
        forall|i: int| 0 <= i < table.len() ==> #[trigger] table[i].id != id,
    ensures
        after_delete == table,
{
    lemma_filter_keeps_all(table, id);
}

/// What is saved is listed first. Take a save that succeeded (the call that
/// `Store::add` records) followed by a listing (the call that `Store::all`
/// records, answered with `rows`); when SQLite carried out both as their
/// statements say, with no other writer in between, the listing holds one
/// task more than the table had before, and its first task is the saved one,
/// verbatim, with an id above every id that was there before.
pub proof fn saved_task_is_listed_first(
    table: Seq<TaskRecord>,
    text: Seq<char>,
    created_at: Seq<char>,
    image_path: Option<Seq<char>>,
    changed: nat,
    after_save: Seq<TaskRecord>,
    rows: Seq<Result<TaskRow, rusqlite::Error>>,
    after_listing: Seq<TaskRecord>,
)
    requires
        carried_out(table, insert_call(text, created_at, image_path, Some(changed)), after_save),
        carried_out(
            after_save,
            SqlCall::QueryRows { sql: SELECT_ALL_SQL@, params: Seq::empty(), rows: Ok(rows) },
            after_listing,
        ),
    ensures
        ok_tasks(rows).len() == table.len() + 1,
        record_of_task(ok_tasks(rows)[0]).text == text,
        record_of_task(ok_tasks(rows)[0]).created_at == created_at,
        record_of_task(ok_tasks(rows)[0]).image_path == image_path,
        forall|i: int| 0 <= i < table.len() ==> table[i].id < ok_tasks(rows)[0].id,
        after_listing == after_save,
{
    assert(image_param(crate::db::text_or_null(image_path)) == image_path);
    lemma_saved_task_is_listed_first(table, text, created_at, image_path, after_save, rows);
}

/// What is deleted is gone, and nothing else is. Take a delete of `id` that
/// succeeded (the call that `Store::delete` records) followed by a listing
/// (the call that `Store::all` records, answered with `rows`); when SQLite
/// carried out both as their statements say, with no other writer in
/// between, the listing holds exactly the earlier rows with another id.
pub proof fn deleted_task_is_gone(
    table: Seq<TaskRecord>,
    id: i64,
    changed: nat,
    after_delete: Seq<TaskRecord>,
    rows: Seq<Result<TaskRow, rusqlite::Error>>,
    after_listing: Seq<TaskRecord>,
)
    requires
        carried_out(
            table,
            SqlCall::Execute {
                sql: DELETE_SQL@,
                params: seq![SqlValue::Integer(id as int)],
                changed: Some(changed),
            },
            after_delete,
        ),
        carried_out(
            after_delete,
            SqlCall::QueryRows { sql: SELECT_ALL_SQL@, params: Seq::empty(), rows: Ok(rows) },
            after_listing,
        ),
    ensures
        forall|i: int|
            0 <= i < ok_tasks(rows).len() ==> #[trigger] ok_tasks(rows)[i].id != id && table.contains(
                record_of_task(ok_tasks(rows)[i]),
            ),
        forall|r: TaskRecord|
            table.contains(r) && r.id != id ==> exists|i: int|
                0 <= i < ok_tasks(rows).len() && #[trigger] record_of_task(ok_tasks(rows)[i]) == r,
{
    assert(DELETE_SQL@ != INSERT_SQL@) by {
        reveal_strlit("DELETE FROM tasks WHERE id = ?1");
        reveal_strlit("INSERT INTO tasks (text, created_at, image_path) VALUES (?1, ?2, ?3)");
    }
    lemma_deleted_task_is_gone(table, id as int, after_delete, rows);
}

/// Deleting an id that no task has changes nothing: when SQLite carried out
/// a delete of `id` (the call that `Store::delete` records) and no row had
/// that id, the table is as it was.
pub proof fn deleting_unknown_id_changes_nothing(
    table: Seq<TaskRecord>,
    id: i64,
    changed: nat,
    after_delete: Seq<TaskRecord>,
)
    requires
        carried_out(
            table,
            SqlCall::Execute {
                sql: DELETE_SQL@,
                params: seq![SqlValue::Integer(id as int)],
                changed: Some(changed),
            },
            after_delete,
        ),
        forall|i: int| 0 <= i < table.len() ==> #[trigger] table[i].id != id,
    ensures
        after_delete == table,
{
    assert(DELETE_SQL@ != INSERT_SQL@) by {
        reveal_strlit("DELETE FROM tasks WHERE id = ?1");
        reveal_strlit("INSERT INTO tasks (text, created_at, image_path) VALUES (?1, ?2, ?3)");
    }
    lemma_deleting_unknown_id_changes_nothing(table, id as int, after_delete);
}

} // verus!
