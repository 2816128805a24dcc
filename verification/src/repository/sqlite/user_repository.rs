use vstd::prelude::*;

use crate::models::user::User;
use crate::models::user::UserDTO;
use crate::models::user::UserRow;
use crate::models::user::has_user;
use crate::models::user::lemma_remove_user_increasing;
use crate::models::user::lemma_remove_user_noop;
use crate::models::user::lemma_reprofile_absent;
use crate::models::user::lemma_user_at_unique;
use crate::models::user::lemma_user_count_absent;
use crate::models::user::lemma_user_count_unique;
use crate::models::user::remove_user;
use crate::models::user::reprofile_rows;
use crate::models::user::user_at;
use crate::models::user::user_count;
use crate::models::user::user_ids_below;
use crate::models::user::user_ids_increasing;
use crate::repository::RepoError;
use crate::repository::Repository;
use crate::repository::entity::Entity;
use crate::repository::sqlite::open_memory_connection;
use crate::repository::sqlite::open_path_connection;

verus! {

/// What the users table of the store behind `c` holds, row by row, in the
/// store's scan order (ascending identifier, which is insertion order here).
pub uninterp spec fn user_rows(c: rusqlite::Connection) -> Seq<UserRow>;

/// The store behind `c` holds a users table of the declared shape, with the
/// store's own identifier column as primary key.
pub uninterp spec fn users_ready(c: rusqlite::Connection) -> bool;

/// Builds the in-memory record for the four decoded columns of a users row.
fn user_from_columns(id: i64, first_name: String, last_name: String, email: String) -> (u: User)
    ensures
        u@ == (UserRow {
            id: id as int,
            first_name: first_name@,
            last_name: last_name@,
            email: email@,
        }),
{
    User { id, first_name, last_name, email }
}

/// Relies on rusqlite::Connection::execute running one CREATE TABLE
/// statement: on success the users table exists, has the declared shape and
/// is empty; on failure (for one, when the table already exists) the store
/// is unchanged.
#[verifier::external_body]
fn create_users_table(conn: &mut rusqlite::Connection) -> (r: Result<(), RepoError>)
    ensures
        r is Ok ==> users_ready(*final(conn)) && user_rows(*final(conn)) == Seq::<UserRow>::empty(),
        r is Err ==> *final(conn) == *old(conn) && r->Err_0 == RepoError::Schema,
{
    let sql =
        "CREATE TABLE users (id INTEGER PRIMARY KEY, first_name TEXT NOT NULL, last_name TEXT NOT NULL, email TEXT NOT NULL)";
    match conn.execute(sql, ()) {
        Ok(_) => Ok(()),
        Err(_) => Err(RepoError::Schema),
    }
}

/// Relies on rusqlite::Connection::execute running one INSERT, and on
/// rusqlite::Connection::last_insert_rowid. While every identifier in use
/// stays below the largest representable one, the store appends the new row
/// at the end of its scan order and assigns it an identifier larger than
/// every identifier in use. A failed insert changes nothing.
#[verifier::external_body]
fn insert_user(
    conn: &mut rusqlite::Connection,
    first_name: &str,
    last_name: &str,
    email: &str,
) -> (r: Result<i64, RepoError>)
    ensures
        r is Err ==> *final(conn) == *old(conn) && r->Err_0 == RepoError::Storage,
        (users_ready(*old(conn)) && user_ids_below(user_rows(*old(conn)), i64::MAX as int)
            && r is Ok) ==> ({
            let rows0 = user_rows(*old(conn));
            let rows1 = user_rows(*final(conn));
            let id = r->Ok_0 as int;
            &&& users_ready(*final(conn))
            &&& rows1.len() == rows0.len() + 1
            &&& rows1.drop_last() == rows0
            &&& rows1.last().id == id
            &&& rows1.last().first_name == first_name@
            &&& rows1.last().last_name == last_name@
            &&& rows1.last().email == email@
            &&& user_ids_below(rows0, id)
        }),
{
    let sql = "INSERT INTO users (first_name, last_name, email) VALUES (?1, ?2, ?3)";
    match conn.execute(sql, (first_name, last_name, email)) {
        Ok(_) => Ok(conn.last_insert_rowid()),
        Err(_) => Err(RepoError::Storage),
    }
}

/// Relies on rusqlite::Connection::query_row running one SELECT by
/// identifier: it hands the matching row to the decoding closure, and fails
/// with Error::QueryReturnedNoRows exactly when no row matches.
#[verifier::external_body]
fn select_user(conn: &rusqlite::Connection, id: i64) -> (r: Result<User, RepoError>)
    ensures
        (users_ready(*conn) && r is Ok) ==> (exists|i: int|
            0 <= i < user_rows(*conn).len() && (#[trigger] user_rows(*conn)[i]).id == id as int
                && r->Ok_0@ == user_rows(*conn)[i]),
        (users_ready(*conn) && r is Err && r->Err_0 == RepoError::NotFound) ==> !has_user(
            user_rows(*conn),
            id as int,
        ),
        r is Err ==> r->Err_0 == RepoError::NotFound || r->Err_0 == RepoError::Storage,
{
    let sql = "SELECT id, first_name, last_name, email FROM users WHERE id = ?1";
    let outcome = conn.query_row(sql, (id,), |row| Ok(user_from_columns(row.get(0)?, row.get(1)?, row.get(2)?, row.get(3)?)));
    match outcome {
        Ok(user) => Ok(user),
        Err(rusqlite::Error::QueryReturnedNoRows) => Err(RepoError::NotFound),
        Err(_) => Err(RepoError::Storage),
    }
}

/// Relies on rusqlite::Connection::execute running one UPDATE of the three
/// mutable columns by identifier, returning how many rows matched; a failed
/// update changes nothing.
#[verifier::external_body]
fn update_user(
    conn: &mut rusqlite::Connection,
    id: i64,
    first_name: &str,
    last_name: &str,
    email: &str,
) -> (r: Result<usize, RepoError>)
    ensures
        r is Err ==> *final(conn) == *old(conn) && r->Err_0 == RepoError::Storage,
        (users_ready(*old(conn)) && r is Ok) ==> ({
            let rows0 = user_rows(*old(conn));
            &&& users_ready(*final(conn))
            &&& user_rows(*final(conn)) == reprofile_rows(
                rows0,
                id as int,
                first_name@,
                last_name@,
                email@,
            )
            &&& r->Ok_0 as int == user_count(rows0, id as int)
        }),
{
    let sql = "UPDATE users SET first_name = ?1, last_name = ?2, email = ?3 WHERE id = ?4";
    match conn.execute(sql, (first_name, last_name, email, id)) {
        Ok(count) => Ok(count),
        Err(_) => Err(RepoError::Storage),
    }
}

/// Relies on rusqlite::Connection::execute running one DELETE by identifier,
/// returning how many rows it removed; a failed delete changes nothing.
#[verifier::external_body]
fn delete_user(conn: &mut rusqlite::Connection, id: i64) -> (r: Result<usize, RepoError>)
    ensures
        r is Err ==> *final(conn) == *old(conn) && r->Err_0 == RepoError::Storage,
        (users_ready(*old(conn)) && r is Ok) ==> ({
            let rows0 = user_rows(*old(conn));
            &&& users_ready(*final(conn))
            &&& user_rows(*final(conn)) == remove_user(rows0, id as int)
            &&& r->Ok_0 as int == user_count(rows0, id as int)
        }),
{
    match conn.execute("DELETE FROM users WHERE id = ?1", (id,)) {
        Ok(count) => Ok(count),
        Err(_) => Err(RepoError::Storage),
    }
}

/// The user repository: exclusive owner of one store connection, exposing
/// exactly the generic CRUD contract.
pub struct UserRepository {
    conn: rusqlite::Connection,
}

impl Entity for User {
    type Id = i64;

    type Item = User;

    type ItemDto = UserDTO;
}

impl View for UserRepository {
    type V = Seq<UserRow>;

    closed spec fn view(&self) -> Seq<UserRow> {
        user_rows(self.conn)
    }
}

impl UserRepository {
    /// The store behind this repository holds a users table of the declared
    /// shape.
    pub closed spec fn schema_ok(&self) -> bool {
        users_ready(self.conn)
    }

    /// Opens the named durable store, or an ephemeral in-memory store when
    /// no location is given, and creates the users schema; creation fails if
    /// the schema already exists.
    pub fn new(connection_string: Option<&str>) -> (r: Result<UserRepository, RepoError>)
        ensures
            r is Ok ==> r->Ok_0.inv() && r->Ok_0@ == Seq::<UserRow>::empty(),
            r is Err ==> r->Err_0 == RepoError::Connection || r->Err_0 == RepoError::Schema,
    {
        let mut conn = match connection_string {
            Some(connection_string) => match UserRepository::connect_to_db(connection_string) {
                Ok(conn) => conn,
                Err(e) => return Err(e),
            },
            None => match open_memory_connection() {
                Ok(conn) => conn,
                Err(e) => return Err(e),
            },
        };
        match create_users_table(&mut conn) {
            Ok(_) => (),
            Err(e) => return Err(e),
        };
        let user_repo = UserRepository { conn };
        Ok(user_repo)
    }
}

impl Repository<rusqlite::Connection, User, RepoError> for UserRepository {
    open spec fn inv(&self) -> bool {
        self.schema_ok() && user_ids_increasing(self@)
    }

    open spec fn save_pre(&self) -> bool {
        user_ids_below(self@, i64::MAX as int)
    }

    open spec fn save_post(pre: Self, post: Self, dto: &UserDTO, r: &Result<i64, RepoError>) -> bool {
        match *r {
            Ok(id) => {
                &&& post@.len() == pre@.len() + 1
                &&& post@.drop_last() == pre@
                &&& post@.last().id == id as int
                &&& post@.last().first_name == dto.first_name@
                &&& post@.last().last_name == dto.last_name@
                &&& post@.last().email == dto.email@
                &&& !has_user(pre@, id as int)
            },
            Err(e) => post@ == pre@ && e == RepoError::Storage,
        }
    }

    open spec fn select_post(&self, id: &i64, r: &Result<User, RepoError>) -> bool {
        match *r {
            Ok(user) => has_user(self@, *id as int) && user@ == user_at(self@, *id as int),
            Err(e) => {
                &&& (e == RepoError::NotFound ==> !has_user(self@, *id as int))
                &&& (e == RepoError::NotFound || e == RepoError::Storage)
            },
        }
    }

    open spec fn update_post(
        pre: Self,
        post: Self,
        id: &i64,
        dto: &UserDTO,
        r: &Result<usize, RepoError>,
    ) -> bool {
        match *r {
            Ok(n) => {
                &&& post@ == reprofile_rows(
                    pre@,
                    *id as int,
                    dto.first_name@,
                    dto.last_name@,
                    dto.email@,
                )
                &&& n as int == user_count(pre@, *id as int)
                &&& (has_user(pre@, *id as int) ==> n == 1)
                &&& (!has_user(pre@, *id as int) ==> n == 0 && post@ == pre@)
            },
            Err(e) => post@ == pre@ && e == RepoError::Storage,
        }
    }

    open spec fn delete_post(
        pre: Self,
        post: Self,
        id: &i64,
        r: &Result<usize, RepoError>,
    ) -> bool {
        match *r {
            Ok(n) => {
                &&& post@ == remove_user(pre@, *id as int)
                &&& n as int == user_count(pre@, *id as int)
                &&& (has_user(pre@, *id as int) ==> n == 1)
                &&& (!has_user(pre@, *id as int) ==> n == 0 && post@ == pre@)
            },
            Err(e) => post@ == pre@ && e == RepoError::Storage,
        }
    }

    fn connect_to_db(connection_string: &str) -> (r: Result<rusqlite::Connection, RepoError>)
        ensures
            r is Err ==> r->Err_0 == RepoError::Connection,
    {
        open_path_connection(connection_string)
    }

    fn save_new_item(&mut self, item: &UserDTO) -> (r: Result<i64, RepoError>) {
        let r = insert_user(
            &mut self.conn,
            item.first_name.as_str(),
            item.last_name.as_str(),
            item.email.as_str(),
        );
        proof {
            let rows0 = old(self)@;
            let rows1 = self@;
            if r is Ok {
                let id = r->Ok_0 as int;
                assert(!has_user(rows0, id)) by {
                    if has_user(rows0, id) {
                        let i = choose|i: int| 0 <= i < rows0.len() && rows0[i].id == id;
                        assert(rows0[i].id < id);
                    }
                };
                assert forall|a: int, b: int|
                    0 <= a < b < rows1.len() implies (#[trigger] rows1[a]).id < (
                #[trigger] rows1[b]).id by {
                    assert(rows1.drop_last()[a] == rows0[a]);
                    assert(rows1[a] == rows0[a]);
                    if b < rows1.len() - 1 {
                        assert(rows1.drop_last()[b] == rows0[b]);
                        assert(rows1[b] == rows0[b]);
                    } else {
                        assert(rows0[a].id < id);
                    }
                };
            }
        }
        r
    }

    fn select_item_by_id(&self, id: &i64) -> (r: Result<User, RepoError>) {
        let r = select_user(&self.conn, *id);
        proof {
            let rows = self@;
            let idi = *id as int;
            if r is Ok {
                assert(users_ready(self.conn));
                assert(exists|i: int|
                    0 <= i < rows.len() && (#[trigger] rows[i]).id == idi && r->Ok_0@ == rows[i]);
                let i = choose|i: int|
                    0 <= i < rows.len() && (#[trigger] rows[i]).id == idi && r->Ok_0@ == rows[i];
                lemma_user_at_unique(rows, idi, i);
            }
        }
        r
    }

    fn update_item(&mut self, id: &i64, item: &UserDTO) -> (r: Result<usize, RepoError>) {
        let r = update_user(
            &mut self.conn,
            *id,
            item.first_name.as_str(),
            item.last_name.as_str(),
            item.email.as_str(),
        );
        proof {
            let rows0 = old(self)@;
            let idi = *id as int;
            if r is Ok {
                assert forall|a: int, b: int|
                    0 <= a < b < self@.len() implies (#[trigger] self@[a]).id < (
                #[trigger] self@[b]).id by {
                    assert(self@[a].id == rows0[a].id);
                    assert(self@[b].id == rows0[b].id);
                };
                if has_user(rows0, idi) {
                    lemma_user_count_unique(rows0, idi);
                } else {
                    lemma_user_count_absent(rows0, idi);
                    lemma_reprofile_absent(
                        rows0,
                        idi,
                        item.first_name@,
                        item.last_name@,
                        item.email@,
                    );
                }
            }
        }
        r
    }

    fn delete_item_by_id(&mut self, id: &i64) -> (r: Result<usize, RepoError>) {
        let r = delete_user(&mut self.conn, *id);
        proof {
            let rows0 = old(self)@;
            let idi = *id as int;
            if r is Ok {
                lemma_remove_user_increasing(rows0, idi);
                if has_user(rows0, idi) {
                    lemma_user_count_unique(rows0, idi);
                } else {
                    lemma_user_count_absent(rows0, idi);
                    lemma_remove_user_noop(rows0, idi);
                }
            }
        }
        r
    }
}

} // verus!
