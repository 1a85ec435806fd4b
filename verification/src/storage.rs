//! The task store: a plain SQLite file with one `tasks` table.
use vstd::prelude::*;
use std::path::PathBuf;
use crate::db::{Db, SqlCall, SqlValue, text_or_null, opt_text};

verus! {

/// One captured task.
#[derive(Debug)]
pub struct Task {
    pub id: i64,
    pub text: String,
    /// ISO 8601, UTC.
    pub created_at: String,
    /// Absolute path to a pasted screenshot, if any.
    pub image_path: Option<String>,
}

/// A `tasks` row as SQLite hands it over: id, text, created_at, image_path.
pub type TaskRow = (i64, String, String, Option<String>);

/// What went wrong, and at which step, with SQLite's own error.
#[derive(Debug)]
pub enum StoreError {
    /// The database file could not be opened.
    Open(rusqlite::Error),
    /// The `tasks` table could not be created.
    Initialize(rusqlite::Error),
    /// The `image_path` column could not be added to an older database.
    Migrate(rusqlite::Error),
    /// A task could not be saved.
    Save(rusqlite::Error),
    /// The tasks could not be read.
    Query(rusqlite::Error),
    /// A task could not be deleted.
    Delete(rusqlite::Error),
}

/// The store of tasks, over one SQLite connection.
pub struct Store {
    db: Db,
}

/// The directory, under the user's data directory, that holds the database.
pub const DATA_DIR_NAME: &'static str = "doo";

/// The database file's name.
pub const DB_FILE_NAME: &'static str = "doo.db";

/// The directory, under `DATA_DIR_NAME`, where pasted screenshots are stored.
pub const IMAGES_DIR_NAME: &'static str = "images";

pub const CREATE_TABLE_SQL: &'static str = "CREATE TABLE IF NOT EXISTS tasks (
                id         INTEGER PRIMARY KEY,
                text       TEXT NOT NULL,
                created_at TEXT NOT NULL,
                image_path TEXT
            );";

pub const IMAGE_PATH_COLUMN_SQL: &'static str =
    "SELECT COUNT(*) FROM pragma_table_info('tasks') WHERE name = 'image_path'";

pub const ADD_IMAGE_PATH_SQL: &'static str = "ALTER TABLE tasks ADD COLUMN image_path TEXT";

pub const INSERT_SQL: &'static str = "INSERT INTO tasks (text, created_at, image_path) VALUES (?1, ?2, ?3)";

pub const SELECT_ALL_SQL: &'static str =
    "SELECT id, text, created_at, image_path FROM tasks ORDER BY id DESC";

pub const SELECT_IMAGE_PATH_SQL: &'static str = "SELECT image_path FROM tasks WHERE id = ?1";

pub const DELETE_SQL: &'static str = "DELETE FROM tasks WHERE id = ?1";

/// The task that a row holds.
pub open spec fn task_of(row: TaskRow) -> Task {
    Task { id: row.0, text: row.1, created_at: row.2, image_path: row.3 }
}

/// The tasks of the rows that were read without error, in their order.
pub open spec fn ok_tasks(rows: Seq<Result<TaskRow, rusqlite::Error>>) -> Seq<Task>
    decreases rows.len(),
{
    if rows.len() == 0 {
        Seq::empty()
    } else {
        let rest = ok_tasks(rows.drop_last());
        match rows.last() {
            Ok(row) => rest.push(task_of(row)),
            Err(_) => rest,
        }
    }
}

/// The tasks of rows read one after the other are the tasks of the first
/// rows followed by those of the rest; a row read without error gives its
/// task, a row that failed gives none. Together these say that every row
/// read without error gives exactly its task, in order, and nothing else
/// does.
pub proof fn ok_tasks_row_by_row(
    first: Seq<Result<TaskRow, rusqlite::Error>>,
    rest: Seq<Result<TaskRow, rusqlite::Error>>,
    row: TaskRow,
    failure: rusqlite::Error,
)
    ensures
        ok_tasks(first + rest) == ok_tasks(first) + ok_tasks(rest),
        ok_tasks(seq![Ok(row)]) == seq![task_of(row)],
        ok_tasks(seq![Err(failure)]) == Seq::<Task>::empty(),
    decreases rest.len(),
{
    let one: Seq<Result<TaskRow, rusqlite::Error>> = seq![Ok(row)];
    assert(one.drop_last() =~= Seq::<Result<TaskRow, rusqlite::Error>>::empty());
    assert(ok_tasks(one.drop_last()).len() == 0);
    assert(one.last() == Ok::<TaskRow, rusqlite::Error>(row));
    assert(ok_tasks(one) =~= seq![task_of(row)]);
    let bad: Seq<Result<TaskRow, rusqlite::Error>> = seq![Err(failure)];
    assert(bad.drop_last() =~= Seq::<Result<TaskRow, rusqlite::Error>>::empty());
    assert(ok_tasks(bad.drop_last()).len() == 0);
    assert(bad.last() is Err);
    assert(ok_tasks(bad) =~= Seq::<Task>::empty());
    if rest.len() == 0 {
        assert(first + rest =~= first);
        assert(ok_tasks(first) + ok_tasks(rest) =~= ok_tasks(first));
    } else {
        ok_tasks_row_by_row(first, rest.drop_last(), row, failure);
        assert((first + rest).drop_last() =~= first + rest.drop_last());
        assert((first + rest).last() == rest.last());
        match rest.last() {
            Ok(r) => {
                assert(ok_tasks(first + rest) =~= ok_tasks(first) + ok_tasks(rest));
            },
            Err(_) => {
                assert(ok_tasks(first + rest) =~= ok_tasks(first) + ok_tasks(rest));
            },
        }
    }
}

/// Keeps the rows that were read without error, in their order, as tasks.
pub fn tasks_from_rows(rows: Vec<Result<TaskRow, rusqlite::Error>>) -> (tasks: Vec<Task>)
    ensures
        tasks@ == ok_tasks(rows@),
{
    let ghost all = rows@;
    let mut tasks: Vec<Task> = Vec::new();
    for row in it: rows
        invariant
            all == it.seq(),
            tasks@ == ok_tasks(all.take(it.index() as int)),
    {
        proof {
            assert(all.take(it.index() + 1).drop_last() =~= all.take(it.index() as int));
        }
        match row {
            Ok((id, text, created_at, image_path)) => {
                tasks.push(Task { id, text, created_at, image_path });
            },
            Err(_) => {},
        }
    }
    proof {
        assert(all.take(all.len() as int) =~= all);
    }
    tasks
}

/// Whether a column count that was read says the `image_path` column
/// exists; a failed read counts as missing.
pub open spec fn image_path_column_present(count: Result<i64, rusqlite::Error>) -> bool {
    count matches Ok(n) && n > 0
}

/// Whether the column count that was read says the `image_path` column
/// exists; a failed read counts as missing.
pub fn has_image_path_column(count: Result<i64, rusqlite::Error>) -> (present: bool)
    ensures
        present == image_path_column_present(count),
{
    match count {
        Ok(n) => n > 0,
        Err(_) => false,
    }
}

/// The screenshot path that a lookup found: the looked-up path, when the
/// lookup found a row and the row had one.
pub open spec fn found_image(lookup: Result<Option<String>, rusqlite::Error>) -> Option<String> {
    match lookup {
        Ok(found) => found,
        Err(_) => None,
    }
}

/// The screenshot left behind by a deleted task: the looked-up path, when
/// the lookup found a row and the row had one.
pub fn orphaned_image(lookup: Result<Option<String>, rusqlite::Error>) -> (path: Option<String>)
    ensures
        path == found_image(lookup),
{
    match lookup {
        Ok(found) => found,
        Err(_) => None,
    }
}

/// The calls that adding a missing `image_path` column makes: the column
/// check, and, when it does not find the column, the `ALTER TABLE`; `ok`
/// tells whether it succeeded.
pub open spec fn migration_calls(calls: Seq<SqlCall>, ok: bool) -> bool {
    &&& calls.len() >= 1
    &&& calls[0] matches SqlCall::QueryInteger { sql, params, value }
    &&& sql == IMAGE_PATH_COLUMN_SQL@
    &&& params == Seq::<SqlValue>::empty()
    &&& if image_path_column_present(value) {
        calls.len() == 1 && ok
    } else {
        &&& calls.len() == 2
        &&& calls[1] matches SqlCall::Execute { sql, params, changed }
        &&& sql == ADD_IMAGE_PATH_SQL@
        &&& params == Seq::<SqlValue>::empty()
        &&& ok == (changed is Some)
    }
}

/// Adds the `image_path` column to databases created before image support.
/// A failed check counts as a missing column; only a failed addition of the
/// column is an error, reported as a migration failure.
fn migrate_image_path(db: &mut Db) -> (result: Result<(), StoreError>)
    ensures
        final(db)@.len() >= old(db)@.len(),
        final(db)@.subrange(0, old(db)@.len() as int) == old(db)@,
        migration_calls(final(db)@.subrange(old(db)@.len() as int, final(db)@.len() as int), result is Ok),
        result matches Err(e) ==> e is Migrate,
{
    let ghost before = db@;
    let count = db.query_integer(IMAGE_PATH_COLUMN_SQL);
    let result = if !has_image_path_column(count) {
        match db.execute_plain(ADD_IMAGE_PATH_SQL) {
            Ok(_) => Ok(()),
            Err(e) => Err(StoreError::Migrate(e)),
        }
    } else {
        Ok(())
    };
    assert(db@.subrange(0, before.len() as int) =~= before);
    result
}

/// The calls that opening a store at `path` makes, when it succeeds: open
/// the file, create the `tasks` table if missing, then the migration.
pub open spec fn opening_calls(path: PathBuf, calls: Seq<SqlCall>) -> bool {
    &&& calls.len() >= 2
    &&& calls[0] == (SqlCall::Open { path, opened: true })
    &&& calls[1] == (SqlCall::Batch { sql: CREATE_TABLE_SQL@, done: true })
    &&& migration_calls(calls.subrange(2, calls.len() as int), true)
}

/// The call that saving a task makes: the insert of its text, creation time
/// and screenshot path, in that order of parameters.
pub open spec fn insert_call(
    text: Seq<char>,
    created_at: Seq<char>,
    image_path: Option<Seq<char>>,
    changed: Option<nat>,
) -> SqlCall {
    SqlCall::Execute {
        sql: INSERT_SQL@,
        params: seq![SqlValue::Text(text), SqlValue::Text(created_at), text_or_null(image_path)],
        changed,
    }
}

impl View for Store {
    type V = Seq<SqlCall>;

    /// Every call made on the store's database, in order, with what came back.
    closed spec fn view(&self) -> Seq<SqlCall> {
        self.db@
    }
}

impl Store {
    /// Opens the database file at `path`, creating the `tasks` table if it is
    /// missing and adding the `image_path` column to an older table. A failure
    /// is reported as the step that failed: opening, creating the table, or
    /// adding the column.
    pub fn open_at(path: PathBuf) -> (result: Result<Store, StoreError>)
        ensures
            result matches Ok(store) ==> opening_calls(path, store@),
            result matches Err(e) ==> (e is Open || e is Initialize || e is Migrate),
    {
        let mut db = match Db::open(&path) {
            Ok(db) => db,
            Err(e) => {
                return Err(StoreError::Open(e));
            },
        };
        match db.execute_batch(CREATE_TABLE_SQL) {
            Ok(()) => {},
            Err(e) => {
                return Err(StoreError::Initialize(e));
            },
        }
        let ghost opened = db@;
        match migrate_image_path(&mut db) {
            Ok(()) => {},
            Err(e) => {
                return Err(e);
            },
        }
        assert(db@.subrange(2, db@.len() as int) =~= db@.subrange(opened.len() as int, db@.len() as int));
        assert(db@[0] == opened[0]);
        assert(db@[1] == opened[1]);
        Ok(Store { db })
    }

    /// Saves a new task with its text, its creation time and, if one was
    /// pasted, the path of its screenshot: one insert, with the text as `?1`,
    /// the creation time as `?2` and the path (or NULL) as `?3`. It succeeds
    /// when the insert does; a failure is reported as a failed save.
    pub fn add(&mut self, text: &str, image_path: Option<&str>, created_at: &str) -> (result: Result<
        (),
        StoreError,
    >)
        ensures
            final(self)@.len() == old(self)@.len() + 1,
            final(self)@.drop_last() == old(self)@,
            final(self)@.last() == insert_call(
                text@,
                created_at@,
                opt_text(image_path),
                match final(self)@.last() {
                    SqlCall::Execute { changed, .. } => changed,
                    _ => None,
                },
            ),
            result is Ok <==> final(self)@.last() matches SqlCall::Execute { changed: Some(_), .. },
            result matches Err(e) ==> e is Save,
    {
        let inserted = self.db.execute_with_texts(INSERT_SQL, text, created_at, image_path);
        assert(self@.drop_last() =~= old(self)@);
        match inserted {
            Ok(_) => Ok(()),
            Err(e) => Err(StoreError::Save(e)),
        }
    }

    /// All tasks, newest first (as `SELECT_ALL_SQL` orders them by id); rows
    /// that do not read as a task are left out. One query, which only reads;
    /// a failure is reported as a failed query.
    pub fn all(&mut self) -> (result: Result<Vec<Task>, StoreError>)
        ensures
            final(self)@.len() == old(self)@.len() + 1,
            final(self)@.drop_last() == old(self)@,
            final(self)@.last() matches SqlCall::QueryRows { sql, params, rows } && sql
                == SELECT_ALL_SQL@ && params == Seq::<SqlValue>::empty() && match rows {
                Ok(rows) => result matches Ok(tasks) && tasks@ == ok_tasks(rows),
                Err(_) => result matches Err(e) && e is Query,
            },
    {
        let rows = self.db.query_task_rows(SELECT_ALL_SQL);
        assert(self@.drop_last() =~= old(self)@);
        match rows {
            Ok(rows) => Ok(tasks_from_rows(rows)),
            Err(e) => Err(StoreError::Query(e)),
        }
    }

    /// The screenshot of the task `id`, if it has one: one lookup of its
    /// `image_path`. A failed lookup (no such task) counts as no screenshot.
    pub fn screenshot_of(&mut self, id: i64) -> (path: Option<String>)
        ensures
            final(self)@.len() == old(self)@.len() + 1,
            final(self)@.drop_last() == old(self)@,
            final(self)@.last() matches SqlCall::QueryText { sql, params, found } && sql
                == SELECT_IMAGE_PATH_SQL@ && params == seq![SqlValue::Integer(id as int)] && path
                == found_image(found),
    {
        let lookup = self.db.query_optional_text(SELECT_IMAGE_PATH_SQL, id);
        assert(self@.drop_last() =~= old(self)@);
        orphaned_image(lookup)
    }

    /// Deletes the task `id`: one delete of the row with that id. It succeeds
    /// when the delete does; a failure is reported as a failed delete.
    pub fn delete(&mut self, id: i64) -> (result: Result<(), StoreError>)
        ensures
            final(self)@.len() == old(self)@.len() + 1,
            final(self)@.drop_last() == old(self)@,
            final(self)@.last() matches SqlCall::Execute { sql, params, changed } && sql
                == DELETE_SQL@ && params == seq![SqlValue::Integer(id as int)] && (result is Ok
                <==> changed is Some),
            result matches Err(e) ==> e is Delete,
    {
        let deleted = self.db.execute_with_id(DELETE_SQL, id);
        assert(self@.drop_last() =~= old(self)@);
        match deleted {
            Ok(_) => Ok(()),
            Err(e) => Err(StoreError::Delete(e)),
        }
    }
}

} // verus!
