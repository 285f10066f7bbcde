//! The persistence and authentication layer: schema bootstrap with
//! idempotent seeding, credential verification, and the ticket
//! repository's create, fetch and partial-update operations.
//!
//! A [`Store`] owns the one physical connection; Rust's borrowing rules
//! serialize every operation on it. (Where several callers share a store,
//! the surrounding process wraps it in a mutual-exclusion lock; that guard
//! is plain glue and lives outside this library.)

use vstd::prelude::*;
use vstd::string::StringExecFns;
use crate::db;
use crate::db::bcrypt_matches;
use crate::db::tickets_of;
use crate::db::users_of;
use crate::domain::AuthError;
use crate::domain::CreateTicketRequest;
use crate::domain::GetError;
use crate::domain::LoginRequest;
use crate::domain::StorageError;
use crate::domain::Ticket;
use crate::domain::TicketPatch;
use crate::domain::TicketV;
use crate::domain::UpdateError;
use crate::domain::UpdateTicketRequest;
use crate::domain::User;
use crate::domain::UserV;
use crate::domain::patch_empty;
use crate::domain::patched;
use crate::domain::str_le;
use crate::query::build_update_plan;

verus! {

/// The username the bootstrap seeds.
pub open spec fn admin_username() -> Seq<char> {
    "admin"@
}

/// The fixed default password the seeded account is hashed from.
pub open spec fn default_admin_password() -> Seq<char> {
    "admin123"@
}

/// The `i`-th sample ticket the first bootstrap seeds, given its fresh id
/// and the shared creation timestamp.
pub open spec fn sample_ticket(i: int, id: Seq<char>, now: Seq<char>) -> TicketV {
    TicketV {
        id: id,
        category: if i == 0 {
            "Bug"@
        } else if i == 1 {
            "Feature"@
        } else if i == 2 {
            "Bug"@
        } else {
            "Enhancement"@
        },
        title: if i == 0 {
            "Login page not responsive"@
        } else if i == 1 {
            "Add dark mode"@
        } else if i == 2 {
            "Database connection timeout"@
        } else {
            "Improve search functionality"@
        },
        description: if i == 0 {
            "The login page doesn't work properly on mobile devices"@
        } else if i == 1 {
            "Implement dark mode theme for better user experience"@
        } else if i == 2 {
            "Users experiencing timeout when accessing large datasets"@
        } else {
            "Add advanced filters and sorting options to search"@
        },
        created_date: now,
        assignee: "admin"@,
        reporter: if i == 0 {
            "user1"@
        } else if i == 1 {
            "user2"@
        } else if i == 2 {
            "user1"@
        } else {
            "user3"@
        },
        status: if i == 0 {
            "Open"@
        } else if i == 1 {
            "In Progress"@
        } else if i == 2 {
            "Closed"@
        } else {
            "Open"@
        },
        updated_at: now,
    }
}

/// The first bootstrap put exactly the four sample tickets, under fresh
/// distinct ids and one shared timestamp, on top of `t0`.
pub open spec fn seeded_with(
    t0: Map<Seq<char>, TicketV>,
    t1: Map<Seq<char>, TicketV>,
    ids: Seq<Seq<char>>,
    now: Seq<char>,
) -> bool {
    &&& ids.len() == 4
    &&& (forall|i: int, j: int| 0 <= i < j < 4 ==> ids[i] != ids[j])
    &&& (forall|i: int| 0 <= i < 4 ==> !t0.contains_key(#[trigger] ids[i]))
    &&& t1 == t0.insert(ids[0], sample_ticket(0, ids[0], now)).insert(
        ids[1],
        sample_ticket(1, ids[1], now),
    ).insert(ids[2], sample_ticket(2, ids[2], now)).insert(ids[3], sample_ticket(3, ids[3], now))
}

pub open spec fn seeded(t0: Map<Seq<char>, TicketV>, t1: Map<Seq<char>, TicketV>) -> bool {
    exists|ids: Seq<Seq<char>>, now: Seq<char>| seeded_with(t0, t1, ids, now)
}

/// What a successful bootstrap leaves behind: the `admin` account exists;
/// where it already existed nothing changed at all, and where it did not,
/// exactly the one admin row (its hash verifying the default password)
/// and the four sample tickets were added.
pub open spec fn bootstrap_post(
    u0: Map<Seq<char>, UserV>,
    t0: Map<Seq<char>, TicketV>,
    u1: Map<Seq<char>, UserV>,
    t1: Map<Seq<char>, TicketV>,
) -> bool {
    &&& u1.contains_key(admin_username())
    &&& u0.contains_key(admin_username()) ==> u1 == u0 && t1 == t0
    &&& !u0.contains_key(admin_username()) ==> {
        &&& u1 == u0.insert(admin_username(), u1[admin_username()])
        &&& u1[admin_username()].username == admin_username()
        &&& bcrypt_matches(default_admin_password(), u1[admin_username()].password_hash)
        &&& seeded(t0, t1)
    }
}

/// What a login answers, over the stored users: success exactly where the
/// username exists and the password verifies against its stored hash
/// (unless storage itself failed); the returned record carries the stored
/// fields with an emptied hash; unknown username and wrong password are
/// one and the same error.
pub open spec fn login_post(
    users: Map<Seq<char>, UserV>,
    username: Seq<char>,
    password: Seq<char>,
    r: Result<User, AuthError>,
) -> bool {
    &&& r matches Ok(u) ==> {
        &&& users.contains_key(username)
        &&& bcrypt_matches(password, users[username].password_hash)
        &&& u@.id == users[username].id
        &&& u@.username == username
        &&& u@.created_at == users[username].created_at
        &&& u@.password_hash == Seq::<char>::empty()
    }
    &&& r != Err::<User, AuthError>(AuthError::Storage) ==> ((r is Ok) <==> (users.contains_key(
        username,
    ) && bcrypt_matches(password, users[username].password_hash)))
}

/// What an exact-id lookup answers, over the stored tickets.
pub open spec fn get_post(
    tickets: Map<Seq<char>, TicketV>,
    id: Seq<char>,
    r: Result<Ticket, GetError>,
) -> bool {
    &&& r matches Ok(t) ==> tickets.contains_key(id) && t@ == tickets[id] && t@.id == id
    &&& r != Err::<Ticket, GetError>(GetError::Storage) ==> ((r is Ok) <==> tickets.contains_key(
        id,
    ))
}

/// What a create leaves behind: on success, exactly one new row under a
/// fresh id, carrying the request's fields, status forced `Open`, and one
/// timestamp as both creation and update time.
pub open spec fn create_post(
    t0: Map<Seq<char>, TicketV>,
    t1: Map<Seq<char>, TicketV>,
    req: CreateTicketRequest,
    r: Result<Ticket, StorageError>,
) -> bool {
    &&& r matches Ok(t) ==> {
        &&& !t0.contains_key(t@.id)
        &&& t1 == t0.insert(t@.id, t@)
        &&& t@.category == req.category@
        &&& t@.title == req.title@
        &&& t@.description == req.description@
        &&& t@.assignee == req.assignee@
        &&& t@.reporter == req.reporter@
        &&& t@.status == "Open"@
        &&& t@.created_date == t@.updated_at
    }
    &&& r is Err ==> t1 == t0
}

/// What a partial update leaves behind. An all-absent patch is rejected
/// with the no-fields error and changes nothing. Otherwise, on success the
/// one addressed row becomes [`patched`]: exactly the present fields plus
/// `updated_at` change, and the returned record is that re-read row. A
/// miss is the not-found error and changes nothing; only a storage failure
/// after the write may leave the row updated behind an error.
pub open spec fn update_post(
    t0: Map<Seq<char>, TicketV>,
    t1: Map<Seq<char>, TicketV>,
    p: TicketPatch,
    r: Result<Ticket, UpdateError>,
) -> bool {
    &&& patch_empty(p) ==> r == Err::<Ticket, UpdateError>(UpdateError::NoFields) && t1 == t0
    &&& r == Err::<Ticket, UpdateError>(UpdateError::NoFields) ==> patch_empty(p)
    &&& r matches Ok(t) ==> {
        &&& !patch_empty(p)
        &&& t0.contains_key(p.id)
        &&& t@ == patched(t0[p.id], p, t@.updated_at)
        &&& t1 == t0.insert(p.id, t@)
    }
    &&& r == Err::<Ticket, UpdateError>(UpdateError::NoFields) ==> t1 == t0
    &&& r == Err::<Ticket, UpdateError>(UpdateError::NotFound) ==> !t0.contains_key(p.id) && t1
        == t0
    &&& r == Err::<Ticket, UpdateError>(UpdateError::Storage) ==> t1 == t0 || (t0.contains_key(
        p.id,
    ) && exists|now: Seq<char>| t1 == t0.insert(p.id, patched(t0[p.id], p, now)))
    &&& !patch_empty(p) && !t0.contains_key(p.id) && r != Err::<Ticket, UpdateError>(
        UpdateError::Storage,
    ) ==> r == Err::<Ticket, UpdateError>(UpdateError::NotFound)
    &&& t0.contains_key(p.id) && r != Err::<Ticket, UpdateError>(UpdateError::Storage) && !patch_empty(
        p,
    ) ==> r is Ok
}

/// All the stored tickets, each exactly once, ordered by creation date
/// descending (ties in storage-defined order).
pub open spec fn tickets_listing(m: Map<Seq<char>, TicketV>, s: Seq<Ticket>) -> bool {
    &&& forall|i: int|
        0 <= i < s.len() ==> m.contains_key(#[trigger] s[i]@.id) && m[s[i]@.id] == s[i]@
    &&& forall|i: int, j: int| 0 <= i < j < s.len() ==> s[i]@.id != s[j]@.id
    &&& forall|k: Seq<char>|
        #[trigger] m.contains_key(k) ==> exists|i: int| 0 <= i < s.len() && s[i]@.id == k
    &&& forall|i: int, j: int|
        0 <= i < j < s.len() ==> str_le(#[trigger] s[j]@.created_date, #[trigger] s[i]@.created_date)
}

/// The persistence and authentication layer over the one storage
/// connection. Its observable state is the pair of row maps
/// [`Store::users`] and [`Store::tickets`].
pub struct Store {
    conn: rusqlite::Connection,
}

impl Store {
    /// The rows of the users table, keyed by username.
    pub closed spec fn users(self) -> Map<Seq<char>, UserV> {
        users_of(self.conn)
    }

    /// The rows of the tickets table, keyed by id.
    pub closed spec fn tickets(self) -> Map<Seq<char>, TicketV> {
        tickets_of(self.conn)
    }

    /// Takes ownership of a freshly opened connection and bootstraps it:
    /// creates the two tables where absent and, only where the `admin`
    /// account did not yet exist, seeds it and the four sample tickets.
    /// Any storage failure here is fatal: no store is handed out.
    pub fn init_database(conn: rusqlite::Connection) -> (r: Result<Store, StorageError>)
        ensures
            r matches Ok(s) ==> bootstrap_post(
                users_of(conn),
                tickets_of(conn),
                s.users(),
                s.tickets(),
            ),
    {
        let mut store = Store { conn };
        match store.bootstrap() {
            Ok(()) => Ok(store),
            Err(e) => Err(e),
        }
    }

    /// One bootstrap pass: idempotent table creation, then seeding only
    /// where the `admin` account is absent. Safe to run on every start:
    /// a second pass finds the account and changes nothing.
    pub fn bootstrap(&mut self) -> (r: Result<(), StorageError>)
        ensures
            r is Ok ==> bootstrap_post(
                old(self).users(),
                old(self).tickets(),
                final(self).users(),
                final(self).tickets(),
            ),
    {
        let ghost u0 = self.users();
        let ghost t0 = self.tickets();
        match db::create_tables(&mut self.conn) {
            Ok(()) => (),
            Err(_) => {
                return Err(StorageError);
            },
        }
        let admin = String::from_str("admin");
        match db::select_user(&self.conn, &admin) {
            Ok(Some(_)) => {
                return Ok(());
            },
            Ok(None) => (),
            Err(_) => {
                return Err(StorageError);
            },
        }
        let hash = match db::hash_password("admin123") {
            Ok(h) => h,
            Err(_) => {
                return Err(StorageError);
            },
        };
        let now = db::now_rfc3339();
        let admin_user = User {
            id: db::fresh_id(),
            username: String::from_str("admin"),
            password_hash: hash,
            created_at: now.clone(),
        };
        match db::insert_user(&mut self.conn, &admin_user) {
            Ok(()) => (),
            Err(_) => {
                return Err(StorageError);
            },
        }
        let t_a = Ticket {
            id: db::fresh_id(),
            category: String::from_str("Bug"),
            title: String::from_str("Login page not responsive"),
            description: String::from_str("The login page doesn't work properly on mobile devices"),
            created_date: now.clone(),
            assignee: String::from_str("admin"),
            reporter: String::from_str("user1"),
            status: String::from_str("Open"),
            updated_at: now.clone(),
        };
        match db::insert_ticket(&mut self.conn, &t_a) {
            Ok(()) => (),
            Err(_) => {
                return Err(StorageError);
            },
        }
        let t_b = Ticket {
            id: db::fresh_id(),
            category: String::from_str("Feature"),
            title: String::from_str("Add dark mode"),
            description: String::from_str("Implement dark mode theme for better user experience"),
            created_date: now.clone(),
            assignee: String::from_str("admin"),
            reporter: String::from_str("user2"),
            status: String::from_str("In Progress"),
            updated_at: now.clone(),
        };
        match db::insert_ticket(&mut self.conn, &t_b) {
            Ok(()) => (),
            Err(_) => {
                return Err(StorageError);
            },
        }
        let t_c = Ticket {
            id: db::fresh_id(),
            category: String::from_str("Bug"),
            title: String::from_str("Database connection timeout"),
            description: String::from_str(
                "Users experiencing timeout when accessing large datasets",
            ),
            created_date: now.clone(),
            assignee: String::from_str("admin"),
            reporter: String::from_str("user1"),
            status: String::from_str("Closed"),
            updated_at: now.clone(),
        };
        match db::insert_ticket(&mut self.conn, &t_c) {
            Ok(()) => (),
            Err(_) => {
                return Err(StorageError);
            },
        }
        let t_d = Ticket {
            id: db::fresh_id(),
            category: String::from_str("Enhancement"),
            title: String::from_str("Improve search functionality"),
            description: String::from_str("Add advanced filters and sorting options to search"),
            created_date: now.clone(),
            assignee: String::from_str("admin"),
            reporter: String::from_str("user3"),
            status: String::from_str("Open"),
            updated_at: now.clone(),
        };
        match db::insert_ticket(&mut self.conn, &t_d) {
            Ok(()) => (),
            Err(_) => {
                return Err(StorageError);
            },
        }
        proof {
            let ids = seq![t_a@.id, t_b@.id, t_c@.id, t_d@.id];
            assert(t_a@ == sample_ticket(0, ids[0], now@));
            assert(t_b@ == sample_ticket(1, ids[1], now@));
            assert(t_c@ == sample_ticket(2, ids[2], now@));
            assert(t_d@ == sample_ticket(3, ids[3], now@));
            assert(seeded_with(t0, self.tickets(), ids, now@));
        }
        Ok(())
    }

    /// Verifies a username/password pair and returns the account's public
    /// fields, the stored hash replaced by an empty string. Read-only.
    pub fn login(&self, request: &LoginRequest) -> (r: Result<User, AuthError>)
        ensures
            login_post(self.users(), request.username@, request.password@, r),
    {
        let row = match db::select_user(&self.conn, &request.username) {
            Ok(o) => o,
            Err(_) => {
                return Err(AuthError::Storage);
            },
        };
        match row {
            None => Err(AuthError::InvalidCredentials),
            Some(u) => {
                if db::verify_password(request.password.as_str(), u.password_hash.as_str()) {
                    Ok(
                        User {
                            id: u.id,
                            username: u.username,
                            password_hash: String::new(),
                            created_at: u.created_at,
                        },
                    )
                } else {
                    Err(AuthError::InvalidCredentials)
                }
            },
        }
    }

    /// All tickets, ordered by creation date descending. An empty store
    /// answers an empty sequence, not an error.
    pub fn get_tickets(&self) -> (r: Result<Vec<Ticket>, StorageError>)
        ensures
            r matches Ok(v) ==> tickets_listing(self.tickets(), v@),
    {
        match db::select_all_tickets(&self.conn) {
            Ok(v) => Ok(v),
            Err(_) => Err(StorageError),
        }
    }

    /// Exact-id lookup.
    pub fn get_ticket_by_id(&self, ticket_id: &String) -> (r: Result<Ticket, GetError>)
        ensures
            get_post(self.tickets(), ticket_id@, r),
    {
        match db::select_ticket(&self.conn, ticket_id) {
            Ok(Some(t)) => Ok(t),
            Ok(None) => Err(GetError::NotFound),
            Err(_) => Err(GetError::Storage),
        }
    }

    /// Creates a ticket under a fresh id, status forced `Open` and one
    /// timestamp as both creation and update time, and returns the full
    /// constructed record.
    pub fn create_ticket(&mut self, request: &CreateTicketRequest) -> (r: Result<
        Ticket,
        StorageError,
    >)
        ensures
            final(self).users() == old(self).users(),
            create_post(old(self).tickets(), final(self).tickets(), *request, r),
    {
        let now = db::now_rfc3339();
        let t = Ticket {
            id: db::fresh_id(),
            category: request.category.clone(),
            title: request.title.clone(),
            description: request.description.clone(),
            created_date: now.clone(),
            assignee: request.assignee.clone(),
            reporter: request.reporter.clone(),
            status: String::from_str("Open"),
            updated_at: now,
        };
        match db::insert_ticket(&mut self.conn, &t) {
            Ok(()) => Ok(t),
            Err(_) => Err(StorageError),
        }
    }

    /// Applies a partial update: only the columns present in the patch,
    /// plus `updated_at`, are touched; every value is bound, never
    /// interpolated. The returned record is re-read from storage, so the
    /// caller sees the authoritative `updated_at`.
    pub fn update_ticket(&mut self, request: &UpdateTicketRequest) -> (r: Result<
        Ticket,
        UpdateError,
    >)
        ensures
            final(self).users() == old(self).users(),
            update_post(old(self).tickets(), final(self).tickets(), request@, r),
    {
        if request.status.is_none() && request.assignee.is_none() && request.category.is_none()
            && request.title.is_none() && request.description.is_none() {
            return Err(UpdateError::NoFields);
        }
        let now = db::now_rfc3339();
        let plan = build_update_plan(request, &now);
        let n = match db::exec_ticket_update(&mut self.conn, &plan, request, &now) {
            Ok(n) => n,
            Err(_) => {
                return Err(UpdateError::Storage);
            },
        };
        if n == 0 {
            return Err(UpdateError::NotFound);
        }
        match db::select_ticket(&self.conn, &request.id) {
            Ok(Some(t)) => Ok(t),
            Ok(None) => Err(UpdateError::Storage),
            Err(_) => Err(UpdateError::Storage),
        }
    }
}

} // verus!
