//! The trusted boundary of the library: the SQLite connection and every
//! outside call the logic relies on, each behind one declared contract.
//!
//! The two tables are modeled by [`users_of`] and [`tickets_of`]: the rows
//! of the `users` table keyed by username (the schema makes usernames
//! unique) and the rows of the `tickets` table keyed by id (the primary
//! key), each empty where its table is absent. Every wrapper below states
//! over those two maps what the one statement it runs does.

use vstd::prelude::*;
use crate::domain::Ticket;
use crate::domain::TicketV;
use crate::domain::User;
use crate::domain::UserV;
use crate::domain::UpdateTicketRequest;
use crate::domain::patched;
use crate::domain::str_le;
use crate::query::UpdatePlan;
use crate::query::plan_wf;

verus! {

#[verifier::external_type_specification]
#[verifier::external_body]
pub struct ExConnection(rusqlite::Connection);

#[verifier::external_type_specification]
#[verifier::external_body]
pub struct ExRusqliteError(rusqlite::Error);

#[verifier::external_type_specification]
#[verifier::external_body]
pub struct ExBcryptError(bcrypt::BcryptError);

/// The rows of the `users` table, keyed by username; empty where the
/// table is absent.
pub uninterp spec fn users_of(c: rusqlite::Connection) -> Map<Seq<char>, UserV>;

/// The rows of the `tickets` table, keyed by id; empty where the table is
/// absent.
pub uninterp spec fn tickets_of(c: rusqlite::Connection) -> Map<Seq<char>, TicketV>;

/// What `bcrypt::verify` answers for a password and a stored text: true
/// exactly where the text is a bcrypt hash of the password. The answer is
/// a function of the two arguments alone; false also covers a stored text
/// that is no bcrypt hash at all.
pub uninterp spec fn bcrypt_matches(password: Seq<char>, hash: Seq<char>) -> bool;

/// Relies on `rusqlite::Connection::execute` running two
/// `CREATE TABLE IF NOT EXISTS` statements: idempotent, and no row of
/// either table is touched whether or not the tables already existed.
#[verifier::external_body]
pub(crate) fn create_tables(conn: &mut rusqlite::Connection) -> (r: Result<(), rusqlite::Error>)
    ensures
        users_of(*final(conn)) == users_of(*old(conn)),
        tickets_of(*final(conn)) == tickets_of(*old(conn)),
{
    conn.execute(
        "CREATE TABLE IF NOT EXISTS users (id TEXT PRIMARY KEY, username TEXT UNIQUE NOT NULL, password_hash TEXT NOT NULL, created_at TEXT NOT NULL)",
        [],
    )?;
    conn.execute(
        "CREATE TABLE IF NOT EXISTS tickets (id TEXT PRIMARY KEY, category TEXT NOT NULL, title TEXT NOT NULL, description TEXT NOT NULL, created_date TEXT NOT NULL, assignee TEXT NOT NULL, reporter TEXT NOT NULL, status TEXT NOT NULL, updated_at TEXT NOT NULL)",
        [],
    )?;
    Ok(())
}

/// Relies on `rusqlite::Connection::query_row` running one `SELECT` on the
/// `users` table with the username as a bound parameter; a
/// `QueryReturnedNoRows` outcome means no row matched.
#[verifier::external_body]
pub(crate) fn select_user(conn: &rusqlite::Connection, username: &String) -> (r: Result<
    Option<User>,
    rusqlite::Error,
>)
    ensures
        r matches Ok(Some(u)) ==> users_of(*conn).contains_key(username@) && u@ == users_of(
            *conn,
        )[username@] && u@.username == username@,
        r matches Ok(None) ==> !users_of(*conn).contains_key(username@),
{
    let q = conn.query_row(
        "SELECT id, username, password_hash, created_at FROM users WHERE username = ?",
        [username],
        |row| Ok(User { id: row.get(0)?, username: row.get(1)?, password_hash: row.get(2)?, created_at: row.get(3)? }),
    );
    match q {
        Ok(u) => Ok(Some(u)),
        Err(rusqlite::Error::QueryReturnedNoRows) => Ok(None),
        Err(e) => Err(e),
    }
}

/// Relies on `rusqlite::Connection::execute` running one parameterized
/// `INSERT` into the `users` table; the `UNIQUE` constraint on the
/// username column refuses a duplicate, and a failed statement changes
/// nothing.
#[verifier::external_body]
pub(crate) fn insert_user(conn: &mut rusqlite::Connection, u: &User) -> (r: Result<
    (),
    rusqlite::Error,
>)
    ensures
        tickets_of(*final(conn)) == tickets_of(*old(conn)),
        r is Ok ==> !users_of(*old(conn)).contains_key(u@.username) && users_of(*final(conn))
            == users_of(*old(conn)).insert(u@.username, u@),
        r is Err ==> users_of(*final(conn)) == users_of(*old(conn)),
{
    conn.execute(
        "INSERT INTO users (id, username, password_hash, created_at) VALUES (?, ?, ?, ?)",
        [&u.id, &u.username, &u.password_hash, &u.created_at],
    )?;
    Ok(())
}

/// Relies on `rusqlite::Connection::execute` running one parameterized
/// `INSERT` into the `tickets` table; the primary key refuses a duplicate
/// id, and a failed statement changes nothing.
#[verifier::external_body]
pub(crate) fn insert_ticket(conn: &mut rusqlite::Connection, t: &Ticket) -> (r: Result<
    (),
    rusqlite::Error,
>)
    ensures
        users_of(*final(conn)) == users_of(*old(conn)),
        r is Ok ==> !tickets_of(*old(conn)).contains_key(t@.id) && tickets_of(*final(conn))
            == tickets_of(*old(conn)).insert(t@.id, t@),
        r is Err ==> tickets_of(*final(conn)) == tickets_of(*old(conn)),
{
    conn.execute(
        "INSERT INTO tickets (id, category, title, description, created_date, assignee, reporter, status, updated_at) VALUES (?, ?, ?, ?, ?, ?, ?, ?, ?)",
        [&t.id, &t.category, &t.title, &t.description, &t.created_date, &t.assignee, &t.reporter, &t.status, &t.updated_at],
    )?;
    Ok(())
}

/// Relies on `rusqlite::Connection::query_row` running one `SELECT` on the
/// `tickets` table with the id as a bound parameter; a
/// `QueryReturnedNoRows` outcome means no row matched.
#[verifier::external_body]
pub(crate) fn select_ticket(conn: &rusqlite::Connection, id: &String) -> (r: Result<
    Option<Ticket>,
    rusqlite::Error,
>)
    ensures
        r matches Ok(Some(t)) ==> tickets_of(*conn).contains_key(id@) && t@ == tickets_of(
            *conn,
        )[id@] && t@.id == id@,
        r matches Ok(None) ==> !tickets_of(*conn).contains_key(id@),
{
    let q = conn.query_row(
        "SELECT id, category, title, description, created_date, assignee, reporter, status, updated_at FROM tickets WHERE id = ?",
        [id],
        |row| Ok(Ticket { id: row.get(0)?, category: row.get(1)?, title: row.get(2)?, description: row.get(3)?, created_date: row.get(4)?, assignee: row.get(5)?, reporter: row.get(6)?, status: row.get(7)?, updated_at: row.get(8)? }),
    );
    match q {
        Ok(t) => Ok(Some(t)),
        Err(rusqlite::Error::QueryReturnedNoRows) => Ok(None),
        Err(e) => Err(e),
    }
}

/// Relies on `rusqlite::Statement::query_map` running one `SELECT` over
/// the whole `tickets` table with `ORDER BY created_date DESC`: every row
/// once, no other row, non-ascending in the text order of `created_date`
/// (SQLite's default byte comparison, which on UTF-8 is the code-point
/// order that [`str_le`] states).
#[verifier::external_body]
pub(crate) fn select_all_tickets(conn: &rusqlite::Connection) -> (r: Result<
    Vec<Ticket>,
    rusqlite::Error,
>)
    ensures
        r matches Ok(v) ==> {
            &&& forall|i: int|
                0 <= i < v@.len() ==> tickets_of(*conn).contains_key(#[trigger] v@[i]@.id)
                    && tickets_of(*conn)[v@[i]@.id] == v@[i]@
            &&& forall|i: int, j: int| 0 <= i < j < v@.len() ==> v@[i]@.id != v@[j]@.id
            &&& forall|k: Seq<char>|
                #[trigger] tickets_of(*conn).contains_key(k) ==> exists|i: int|
                    0 <= i < v@.len() && v@[i]@.id == k
            &&& forall|i: int, j: int|
                0 <= i < j < v@.len() ==> str_le(#[trigger] v@[j]@.created_date, #[trigger] v@[i]@.created_date)
        },
{
    let mut stmt = conn.prepare(
        "SELECT id, category, title, description, created_date, assignee, reporter, status, updated_at FROM tickets ORDER BY created_date DESC",
    )?;
    let rows = stmt.query_map([], |row| {
        Ok(Ticket { id: row.get(0)?, category: row.get(1)?, title: row.get(2)?, description: row.get(3)?, created_date: row.get(4)?, assignee: row.get(5)?, reporter: row.get(6)?, status: row.get(7)?, updated_at: row.get(8)? })
    })?;
    rows.collect()
}

/// Relies on `rusqlite::Connection::execute` running the one parameterized
/// `UPDATE` on the `tickets` table that the plan holds (see
/// [`plan_wf`]: its text names exactly the patch's columns plus
/// `updated_at`, selects the row by a bound id, and its value list is the
/// patch's values, the timestamp, then the id). `execute` returns the
/// number of rows the statement changed; a failed statement changes
/// nothing. The arguments `req` and `now` only fix what the plan holds.
#[verifier::external_body]
#[allow(unused_variables)]
pub(crate) fn exec_ticket_update(
    conn: &mut rusqlite::Connection,
    plan: &UpdatePlan,
    req: &UpdateTicketRequest,
    now: &String,
) -> (r: Result<usize, rusqlite::Error>)
    requires
        plan_wf(*plan, req@, now@),
    ensures
        users_of(*final(conn)) == users_of(*old(conn)),
        r matches Ok(n) ==> if tickets_of(*old(conn)).contains_key(req.id@) {
            n == 1 && tickets_of(*final(conn)) == tickets_of(*old(conn)).insert(
                req.id@,
                patched(tickets_of(*old(conn))[req.id@], req@, now@),
            )
        } else {
            n == 0 && tickets_of(*final(conn)) == tickets_of(*old(conn))
        },
        r is Err ==> tickets_of(*final(conn)) == tickets_of(*old(conn)),
{
    conn.execute(plan.sql.as_str(), rusqlite::params_from_iter(plan.params.iter()))
}

/// Relies on `bcrypt::hash`: the result is a bcrypt hash (with a fresh
/// random salt) that `bcrypt::verify` accepts for this password.
#[verifier::external_body]
pub(crate) fn hash_password(password: &str) -> (r: Result<String, bcrypt::BcryptError>)
    ensures
        r matches Ok(h) ==> bcrypt_matches(password@, h@),
{
    bcrypt::hash(password, bcrypt::DEFAULT_COST)
}

/// Relies on `bcrypt::verify`: checks the password against a stored bcrypt
/// hash; an error (the stored text is no bcrypt hash) counts as a
/// mismatch, exactly as [`bcrypt_matches`] is read.
#[verifier::external_body]
pub(crate) fn verify_password(password: &str, hash: &str) -> (r: bool)
    ensures
        r == bcrypt_matches(password@, hash@),
{
    bcrypt::verify(password, hash).unwrap_or(false)
}

/// Relies on `uuid::Uuid::new_v4` and its `Display` form: a freshly drawn
/// random identifier, rendered as the 36-character hyphenated text.
#[verifier::external_body]
pub(crate) fn fresh_id() -> (r: String)
    ensures
        r@.len() == 36,
{
    uuid::Uuid::new_v4().to_string()
}

/// Relies on `chrono::Utc::now` and `to_rfc3339`: the current wall-clock
/// time as text. Nothing is promised of it: the clock decides.
#[verifier::external_body]
pub(crate) fn now_rfc3339() -> (r: String) {
    chrono::Utc::now().to_rfc3339()
}

} // verus!
