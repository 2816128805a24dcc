use vstd::prelude::*;

use crate::models::todo::Timestamp;
use crate::models::todo::TodoItem;
use crate::models::todo::TodoItemDTO;
use crate::models::todo::TodoRow;
use crate::models::todo::has_todo;
use crate::models::todo::lemma_retask_absent;
use crate::models::todo::lemma_remove_todo_increasing;
use crate::models::todo::lemma_remove_todo_noop;
use crate::models::todo::lemma_set_completion_absent;
use crate::models::todo::lemma_todo_at_unique;
use crate::models::todo::lemma_todo_count_absent;
use crate::models::todo::lemma_todo_count_unique;
use crate::models::todo::remove_todo;
use crate::models::todo::retask_rows;
use crate::models::todo::set_completion;
use crate::models::todo::todo_at;
use crate::models::todo::todo_count;
use crate::models::todo::todo_ids_below;
use crate::models::todo::todo_ids_increasing;
use crate::models::todo::todos_of_user;
use crate::repository::RepoError;
use crate::repository::Repository;
use crate::repository::entity::Entity;
use crate::repository::sqlite::open_memory_connection;
use crate::repository::sqlite::open_path_connection;

verus! {

/// What the todos table of the store behind `c` holds, row by row, in the
/// store's scan order (ascending identifier, which is insertion order here).
pub uninterp spec fn todo_rows(c: rusqlite::Connection) -> Seq<TodoRow>;

/// The store behind `c` holds a todos table of the declared shape, with the
/// store's own identifier column as primary key.
pub uninterp spec fn todos_ready(c: rusqlite::Connection) -> bool;

/// Builds the in-memory record for the six decoded columns of a todos row.
fn todo_from_columns(
    id: i64,
    user_id: i64,
    task: String,
    completed: bool,
    created: i64,
    completed_at: Option<i64>,
) -> (t: TodoItem)
    ensures
        t@ == (TodoRow {
            id: id as int,
            user_id: user_id as int,
            task: task@,
            completed: completed,
            created_at: created as int,
            completed_at: match completed_at {
                Some(secs) => Some(secs as int),
                None => None,
            },
        }),
{
    TodoItem {
        id,
        user_id,
        task,
        completed,
        created_datetime: Timestamp { secs: created },
        completed_datetime: match completed_at {
            Some(secs) => Some(Timestamp { secs }),
            None => None,
        },
    }
}

/// Relies on rusqlite::Connection::execute running one CREATE TABLE
/// statement: on success the todos table exists, has the declared shape and
/// is empty; on failure (for one, when the table already exists) the store
/// is unchanged.
#[verifier::external_body]
fn create_todos_table(conn: &mut rusqlite::Connection) -> (r: Result<(), RepoError>)
    ensures
        r is Ok ==> todos_ready(*final(conn)) && todo_rows(*final(conn)) == Seq::<TodoRow>::empty(),
        r is Err ==> *final(conn) == *old(conn) && r->Err_0 == RepoError::Schema,
{
    let sql =
        "CREATE TABLE todos(id INTEGER PRIMARY KEY, user_id INTEGER NOT NULL, task TEXT NOT NULL, completed INTEGER NOT NULL DEFAULT 0, created_datetime INTEGER DEFAULT (strftime('%s', 'now')), completed_datetime INTEGER)";
    match conn.execute(sql, ()) {
        Ok(_) => Ok(()),
        Err(_) => Err(RepoError::Schema),
    }
}

/// Relies on rusqlite::Connection::execute running one INSERT, and on
/// rusqlite::Connection::last_insert_rowid. While every identifier in use
/// stays below the largest representable one, the store appends the new row
/// at the end of its scan order and assigns it an identifier larger than
/// every identifier in use; it stores the completion flag as false with no
/// completion time and fills the creation time from its own clock. A failed
/// insert changes nothing.
#[verifier::external_body]
fn insert_todo(conn: &mut rusqlite::Connection, user_id: i64, task: &str) -> (r: Result<
    i64,
    RepoError,
>)
    ensures
        r is Err ==> *final(conn) == *old(conn) && r->Err_0 == RepoError::Storage,
        (todos_ready(*old(conn)) && todo_ids_below(todo_rows(*old(conn)), i64::MAX as int)
            && r is Ok) ==> ({
            let rows0 = todo_rows(*old(conn));
            let rows1 = todo_rows(*final(conn));
            let id = r->Ok_0 as int;
            &&& todos_ready(*final(conn))
            &&& rows1.len() == rows0.len() + 1
            &&& rows1.drop_last() == rows0
            &&& rows1.last().id == id
            &&& rows1.last().user_id == user_id as int
            &&& rows1.last().task == task@
            &&& rows1.last().completed == false
            &&& rows1.last().completed_at is None
            &&& todo_ids_below(rows0, id)
        }),
{
    match conn.execute("INSERT INTO todos (user_id, task) VALUES (?1, ?2)", (user_id, task)) {
        Ok(_) => Ok(conn.last_insert_rowid()),
        Err(_) => Err(RepoError::Storage),
    }
}

/// Relies on rusqlite::Connection::query_row running one SELECT by
/// identifier: it hands the matching row to the decoding closure, and fails
/// with Error::QueryReturnedNoRows exactly when no row matches.
#[verifier::external_body]
fn select_todo(conn: &rusqlite::Connection, id: i64) -> (r: Result<TodoItem, RepoError>)
    ensures
        (todos_ready(*conn) && r is Ok) ==> (exists|i: int|
            0 <= i < todo_rows(*conn).len() && (#[trigger] todo_rows(*conn)[i]).id == id as int
                && r->Ok_0@ == todo_rows(*conn)[i]),
        (todos_ready(*conn) && r is Err && r->Err_0 == RepoError::NotFound) ==> !has_todo(
            todo_rows(*conn),
            id as int,
        ),
        r is Err ==> r->Err_0 == RepoError::NotFound || r->Err_0 == RepoError::Storage,
{
    let sql =
        "SELECT id, user_id, task, completed, created_datetime, completed_datetime FROM todos WHERE id = ?1";
    let outcome = conn.query_row(sql, (id,), |row| Ok(todo_from_columns(row.get(0)?, row.get(1)?, row.get(2)?, row.get(3)?, row.get(4)?, row.get(5)?)));
    match outcome {
        Ok(item) => Ok(item),
        Err(rusqlite::Error::QueryReturnedNoRows) => Err(RepoError::NotFound),
        Err(_) => Err(RepoError::Storage),
    }
}

/// Relies on rusqlite::Statement::query_map running one SELECT filtered by
/// owning user: the store hands back exactly the matching rows, in its scan
/// order, each decoded by the closure; any failure while preparing, querying
/// or decoding surfaces as an error.
#[verifier::external_body]
fn select_todos_of_user(conn: &rusqlite::Connection, user_id: i64) -> (r: Result<
    Vec<TodoItem>,
    RepoError,
>)
    ensures
        (todos_ready(*conn) && r is Ok) ==> ({
            let found = todos_of_user(todo_rows(*conn), user_id as int);
            &&& r->Ok_0@.len() == found.len()
            &&& (forall|i: int| 0 <= i < found.len() ==> (#[trigger] r->Ok_0@[i])@ == found[i])
        }),
        r is Err ==> r->Err_0 == RepoError::Storage,
{
    let sql =
        "SELECT id, user_id, task, completed, created_datetime, completed_datetime FROM todos WHERE user_id = ?1";
    let mut stmt = match conn.prepare(sql) { Ok(stmt) => stmt, Err(_) => return Err(RepoError::Storage) };
    let outcome = stmt.query_map((user_id,), |row| Ok(todo_from_columns(row.get(0)?, row.get(1)?, row.get(2)?, row.get(3)?, row.get(4)?, row.get(5)?)));
    let rows = match outcome { Ok(rows) => rows, Err(_) => return Err(RepoError::Storage) };
    let mut todos = Vec::new();
    for row in rows {
        match row { Ok(todo) => todos.push(todo), Err(_) => return Err(RepoError::Storage) }
    }
    Ok(todos)
}

/// Relies on rusqlite::Connection::execute running one UPDATE of the task
/// column by identifier, returning how many rows matched; a failed update
/// changes nothing.
#[verifier::external_body]
fn update_todo_task(conn: &mut rusqlite::Connection, id: i64, task: &str) -> (r: Result<
    usize,
    RepoError,
>)
    ensures
        r is Err ==> *final(conn) == *old(conn) && r->Err_0 == RepoError::Storage,
        (todos_ready(*old(conn)) && r is Ok) ==> ({
            let rows0 = todo_rows(*old(conn));
            &&& todos_ready(*final(conn))
            &&& todo_rows(*final(conn)) == retask_rows(rows0, id as int, task@)
            &&& r->Ok_0 as int == todo_count(rows0, id as int)
        }),
{
    match conn.execute("UPDATE todos SET task = ?1 WHERE id = ?2", (task, id)) {
        Ok(count) => Ok(count),
        Err(_) => Err(RepoError::Storage),
    }
}

/// Relies on rusqlite::Connection::execute running one UPDATE by identifier
/// that raises the completion flag and stamps the completion time from the
/// store's clock (one instant for the whole statement), returning how many
/// rows matched; a failed update changes nothing.
#[verifier::external_body]
fn complete_todo_row(conn: &mut rusqlite::Connection, id: i64) -> (r: Result<usize, RepoError>)
    ensures
        r is Err ==> *final(conn) == *old(conn) && r->Err_0 == RepoError::Storage,
        (todos_ready(*old(conn)) && r is Ok) ==> ({
            let rows0 = todo_rows(*old(conn));
            &&& todos_ready(*final(conn))
            &&& (exists|t: int|
                todo_rows(*final(conn)) == set_completion(rows0, id as int, true, Some(t)))
            &&& r->Ok_0 as int == todo_count(rows0, id as int)
        }),
{
    let sql = "UPDATE todos SET completed = 1, completed_datetime = (strftime('%s', 'now')) WHERE id = ?1";
    match conn.execute(sql, (id,)) {
        Ok(count) => Ok(count),
        Err(_) => Err(RepoError::Storage),
    }
}

/// Relies on rusqlite::Connection::execute running one UPDATE by identifier
/// that clears the completion flag and the completion time, returning how
/// many rows matched; a failed update changes nothing.
#[verifier::external_body]
fn uncomplete_todo_row(conn: &mut rusqlite::Connection, id: i64) -> (r: Result<usize, RepoError>)
    ensures
        r is Err ==> *final(conn) == *old(conn) && r->Err_0 == RepoError::Storage,
        (todos_ready(*old(conn)) && r is Ok) ==> ({
            let rows0 = todo_rows(*old(conn));
            &&& todos_ready(*final(conn))
            &&& todo_rows(*final(conn)) == set_completion(rows0, id as int, false, None)
            &&& r->Ok_0 as int == todo_count(rows0, id as int)
        }),
{
    let sql = "UPDATE todos SET completed = 0, completed_datetime = NULL WHERE id = ?1";
    match conn.execute(sql, (id,)) {
        Ok(count) => Ok(count),
        Err(_) => Err(RepoError::Storage),
    }
}

/// Relies on rusqlite::Connection::execute running one DELETE by identifier,
/// returning how many rows it removed; a failed delete changes nothing.
#[verifier::external_body]
fn delete_todo(conn: &mut rusqlite::Connection, id: i64) -> (r: Result<usize, RepoError>)
    ensures
        r is Err ==> *final(conn) == *old(conn) && r->Err_0 == RepoError::Storage,
        (todos_ready(*old(conn)) && r is Ok) ==> ({
            let rows0 = todo_rows(*old(conn));
            &&& todos_ready(*final(conn))
            &&& todo_rows(*final(conn)) == remove_todo(rows0, id as int)
            &&& r->Ok_0 as int == todo_count(rows0, id as int)
        }),
{
    match conn.execute("DELETE FROM todos WHERE id = ?1", (id,)) {
        Ok(count) => Ok(count),
        Err(_) => Err(RepoError::Storage),
    }
}

/// The todo repository: exclusive owner of one store connection, exposing
/// the generic CRUD contract plus the todo-specific operations.
pub struct TodoRepository {
    conn: rusqlite::Connection,
}

impl Entity for TodoItem {
    type Id = i64;

    type Item = TodoItem;

    type ItemDto = TodoItemDTO;
}

impl View for TodoRepository {
    type V = Seq<TodoRow>;

    closed spec fn view(&self) -> Seq<TodoRow> {
        todo_rows(self.conn)
    }
}

impl TodoRepository {
    /// The store behind this repository holds a todos table of the declared
    /// shape.
    pub closed spec fn schema_ok(&self) -> bool {
        todos_ready(self.conn)
    }

    /// Opens the named durable store, or an ephemeral in-memory store when
    /// no location is given, and creates the todos schema; creation fails if
    /// the schema already exists.
    pub fn new(connection_string: Option<&str>) -> (r: Result<TodoRepository, RepoError>)
        ensures
            r is Ok ==> r->Ok_0.inv() && r->Ok_0@ == Seq::<TodoRow>::empty(),
            r is Err ==> r->Err_0 == RepoError::Connection || r->Err_0 == RepoError::Schema,
    {
        let mut conn = match connection_string {
            None => match open_memory_connection() {
                Ok(conn) => conn,
                Err(e) => return Err(e),
            },
            Some(connection_string) => match TodoRepository::connect_to_db(connection_string) {
                Ok(conn) => conn,
                Err(e) => return Err(e),
            },
        };
        match create_todos_table(&mut conn) {
            Ok(_) => (),
            Err(e) => return Err(e),
        };
        let todo_repo = TodoRepository { conn };
        Ok(todo_repo)
    }

    /// Produces every todo record owned by `user_id`, in insertion order,
    /// and no record of any other user.
    pub fn get_user_todos(&self, user_id: &i64) -> (r: Result<Vec<TodoItem>, RepoError>)
        requires
            self.inv(),
        ensures
            r is Ok ==> ({
                let found = todos_of_user(self@, *user_id as int);
                &&& r->Ok_0@.len() == found.len()
                &&& (forall|i: int| 0 <= i < found.len() ==> (#[trigger] r->Ok_0@[i])@ == found[i])
            }),
            r is Err ==> r->Err_0 == RepoError::Storage,
    {
        select_todos_of_user(&self.conn, *user_id)
    }

    /// Raises the completion flag of the record carrying `id` and stamps its
    /// completion time; returns how many records that was (0 or 1).
    pub fn complete_todo_item(&mut self, id: &i64) -> (r: Result<usize, RepoError>)
        requires
            old(self).inv(),
        ensures
            final(self).inv(),
            (match r {
                Ok(n) => {
                    &&& (exists|t: int|
                        final(self)@ == set_completion(old(self)@, *id as int, true, Some(t)))
                    &&& n as int == todo_count(old(self)@, *id as int)
                    &&& (has_todo(old(self)@, *id as int) ==> n == 1)
                    &&& (!has_todo(old(self)@, *id as int) ==> n == 0 && final(self)@ == old(
                        self,
                    )@)
                },
                Err(e) => final(self)@ == old(self)@ && e == RepoError::Storage,
            }),
    {
        let r = complete_todo_row(&mut self.conn, *id);
        proof {
            let rows0 = old(self)@;
            let idi = *id as int;
            if r is Ok {
                let t = choose|t: int| self@ == set_completion(rows0, idi, true, Some(t));
                assert forall|a: int, b: int|
                    0 <= a < b < self@.len() implies (#[trigger] self@[a]).id < (
                #[trigger] self@[b]).id by {
                    assert(self@[a].id == rows0[a].id);
                    assert(self@[b].id == rows0[b].id);
                };
                if has_todo(rows0, idi) {
                    lemma_todo_count_unique(rows0, idi);
                } else {
                    lemma_todo_count_absent(rows0, idi);
                    lemma_set_completion_absent(rows0, idi, true, Some(t));
                }
            }
        }
        r
    }

    /// Clears the completion flag and the completion time of the record
    /// carrying `id`; returns how many records that was (0 or 1).
    pub fn uncomplete_todo_item(&mut self, id: &i64) -> (r: Result<usize, RepoError>)
        requires
            old(self).inv(),
        ensures
            final(self).inv(),
            (match r {
                Ok(n) => {
                    &&& final(self)@ == set_completion(old(self)@, *id as int, false, None)
                    &&& n as int == todo_count(old(self)@, *id as int)
                    &&& (has_todo(old(self)@, *id as int) ==> n == 1)
                    &&& (!has_todo(old(self)@, *id as int) ==> n == 0 && final(self)@ == old(
                        self,
                    )@)
                },
                Err(e) => final(self)@ == old(self)@ && e == RepoError::Storage,
            }),
    {
        let r = uncomplete_todo_row(&mut self.conn, *id);
        proof {
            let rows0 = old(self)@;
            let idi = *id as int;
            if r is Ok {
                assert forall|a: int, b: int|
                    0 <= a < b < self@.len() implies (#[trigger] self@[a]).id < (
                #[trigger] self@[b]).id by {
                    assert(self@[a].id == rows0[a].id);
                    assert(self@[b].id == rows0[b].id);
                };
                if has_todo(rows0, idi) {
                    lemma_todo_count_unique(rows0, idi);
                } else {
                    lemma_todo_count_absent(rows0, idi);
                    lemma_set_completion_absent(rows0, idi, false, None);
                }
            }
        }
        r
    }
}

impl Repository<rusqlite::Connection, TodoItem, RepoError> for TodoRepository {
    open spec fn inv(&self) -> bool {
        self.schema_ok() && todo_ids_increasing(self@)
    }

    open spec fn save_pre(&self) -> bool {
        todo_ids_below(self@, i64::MAX as int)
    }

    open spec fn save_post(
        pre: Self,
        post: Self,
        dto: &TodoItemDTO,
        r: &Result<i64, RepoError>,
    ) -> bool {
        match *r {
            Ok(id) => {
                &&& post@.len() == pre@.len() + 1
                &&& post@.drop_last() == pre@
                &&& post@.last().id == id as int
                &&& post@.last().user_id == dto.user_id as int
                &&& post@.last().task == dto.task@
                &&& post@.last().completed == false
                &&& post@.last().completed_at is None
                &&& !has_todo(pre@, id as int)
            },
            Err(e) => post@ == pre@ && e == RepoError::Storage,
        }
    }

    open spec fn select_post(&self, id: &i64, r: &Result<TodoItem, RepoError>) -> bool {
        match *r {
            Ok(item) => has_todo(self@, *id as int) && item@ == todo_at(self@, *id as int),
            Err(e) => {
                &&& (e == RepoError::NotFound ==> !has_todo(self@, *id as int))
                &&& (e == RepoError::NotFound || e == RepoError::Storage)
            },
        }
    }

    open spec fn update_post(
        pre: Self,
        post: Self,
        id: &i64,
        dto: &TodoItemDTO,
        r: &Result<usize, RepoError>,
    ) -> bool {
        match *r {
            Ok(n) => {
                &&& post@ == retask_rows(pre@, *id as int, dto.task@)
                &&& n as int == todo_count(pre@, *id as int)
                &&& (has_todo(pre@, *id as int) ==> n == 1)
                &&& (!has_todo(pre@, *id as int) ==> n == 0 && post@ == pre@)
            },
            Err(e) => post@ == pre@ && e == RepoError::Storage,
        }
    }

    open spec fn delete_post(
        pre: Self,
        post: Self,
        id: &i64,
        r: &Result<usize, RepoError>,
    ) -> bool {
        match *r {
            Ok(n) => {
                &&& post@ == remove_todo(pre@, *id as int)
                &&& n as int == todo_count(pre@, *id as int)
                &&& (has_todo(pre@, *id as int) ==> n == 1)
                &&& (!has_todo(pre@, *id as int) ==> n == 0 && post@ == pre@)
            },
            Err(e) => post@ == pre@ && e == RepoError::Storage,
        }
    }

    fn connect_to_db(connection_string: &str) -> (r: Result<rusqlite::Connection, RepoError>)
        ensures
            r is Err ==> r->Err_0 == RepoError::Connection,
    {
        open_path_connection(connection_string)
    }

    fn save_new_item(&mut self, item: &TodoItemDTO) -> (r: Result<i64, RepoError>) {
        let r = insert_todo(&mut self.conn, item.user_id, item.task.as_str());
        proof {
            let rows0 = old(self)@;
            let rows1 = self@;
            if r is Ok {
                let id = r->Ok_0 as int;
                assert(!has_todo(rows0, id)) by {
                    if has_todo(rows0, id) {
                        let i = choose|i: int| 0 <= i < rows0.len() && rows0[i].id == id;
                        assert(rows0[i].id < id);
                    }
                };
                assert forall|a: int, b: int|
                    0 <= a < b < rows1.len() implies (#[trigger] rows1[a]).id < (
                #[trigger] rows1[b]).id by {
                    assert(rows1.drop_last()[a] == rows0[a]);
                    assert(rows1[a] == rows0[a]);
                    if b < rows1.len() - 1 {
                        assert(rows1.drop_last()[b] == rows0[b]);
                        assert(rows1[b] == rows0[b]);
                    } else {
                        assert(rows0[a].id < id);
                    }
                };
            }
        }
        r
    }

    fn select_item_by_id(&self, id: &i64) -> (r: Result<TodoItem, RepoError>) {
        let r = select_todo(&self.conn, *id);
        proof {
            let rows = self@;
            let idi = *id as int;
            if r is Ok {
                assert(todos_ready(self.conn));
                assert(exists|i: int|
                    0 <= i < rows.len() && (#[trigger] rows[i]).id == idi && r->Ok_0@ == rows[i]);
                let i = choose|i: int|
                    0 <= i < rows.len() && (#[trigger] rows[i]).id == idi && r->Ok_0@ == rows[i];
                lemma_todo_at_unique(rows, idi, i);
            }
        }
        r
    }

    fn update_item(&mut self, id: &i64, item: &TodoItemDTO) -> (r: Result<usize, RepoError>) {
        let r = update_todo_task(&mut self.conn, *id, item.task.as_str());
        proof {
            let rows0 = old(self)@;
            let idi = *id as int;
            if r is Ok {
                assert forall|a: int, b: int|
                    0 <= a < b < self@.len() implies (#[trigger] self@[a]).id < (
                #[trigger] self@[b]).id by {
                    assert(self@[a].id == rows0[a].id);
                    assert(self@[b].id == rows0[b].id);
                };
                if has_todo(rows0, idi) {
                    lemma_todo_count_unique(rows0, idi);
                } else {
                    lemma_todo_count_absent(rows0, idi);
                    lemma_retask_absent(rows0, idi, item.task@);
                }
            }
        }
        r
    }

    fn delete_item_by_id(&mut self, id: &i64) -> (r: Result<usize, RepoError>) {
        let r = delete_todo(&mut self.conn, *id);
        proof {
            let rows0 = old(self)@;
            let idi = *id as int;
            if r is Ok {
                lemma_remove_todo_increasing(rows0, idi);
                if has_todo(rows0, idi) {
                    lemma_todo_count_unique(rows0, idi);
                } else {
                    lemma_todo_count_absent(rows0, idi);
                    lemma_remove_todo_noop(rows0, idi);
                }
            }
        }
        r
    }
}

} // verus!
