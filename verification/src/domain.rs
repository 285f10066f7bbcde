//! The records the store holds, the request payloads of the operation
//! surface, the error taxonomy, and the mathematical values (views) that
//! every contract of this crate speaks of.

use vstd::prelude::*;

verus! {

/// One row of the `users` table. `password_hash` is the output of a slow,
/// salted, one-way hash; it never leaves the credential store (a successful
/// login returns a copy with this field emptied).
#[derive(Debug, Clone)]
pub struct User {
    pub id: String,
    pub username: String,
    pub password_hash: String,
    pub created_at: String,
}

/// The mathematical value of a [`User`].
pub struct UserV {
    pub id: Seq<char>,
    pub username: Seq<char>,
    pub password_hash: Seq<char>,
    pub created_at: Seq<char>,
}

impl View for User {
    type V = UserV;

    open spec fn view(&self) -> UserV {
        UserV {
            id: self.id@,
            username: self.username@,
            password_hash: self.password_hash@,
            created_at: self.created_at@,
        }
    }
}

/// One row of the `tickets` table.
#[derive(Debug, Clone)]
pub struct Ticket {
    pub id: String,
    pub category: String,
    pub title: String,
    pub description: String,
    pub created_date: String,
    pub assignee: String,
    pub reporter: String,
    pub status: String,
    pub updated_at: String,
}

/// The mathematical value of a [`Ticket`].
pub struct TicketV {
    pub id: Seq<char>,
    pub category: Seq<char>,
    pub title: Seq<char>,
    pub description: Seq<char>,
    pub created_date: Seq<char>,
    pub assignee: Seq<char>,
    pub reporter: Seq<char>,
    pub status: Seq<char>,
    pub updated_at: Seq<char>,
}

impl View for Ticket {
    type V = TicketV;

    open spec fn view(&self) -> TicketV {
        TicketV {
            id: self.id@,
            category: self.category@,
            title: self.title@,
            description: self.description@,
            created_date: self.created_date@,
            assignee: self.assignee@,
            reporter: self.reporter@,
            status: self.status@,
            updated_at: self.updated_at@,
        }
    }
}

/// A login attempt. `remember_me` is accepted but has no effect in this
/// core: no session or token is issued.
#[derive(Debug)]
pub struct LoginRequest {
    pub username: String,
    pub password: String,
    pub remember_me: bool,
}

/// The payload of the create operation. The caller supplies no status:
/// a new ticket always starts as `Open`.
#[derive(Debug)]
pub struct CreateTicketRequest {
    pub category: String,
    pub title: String,
    pub description: String,
    pub assignee: String,
    pub reporter: String,
}

/// A partial update: each field is independently present or absent.
/// Columns not named here keep their prior value exactly.
#[derive(Debug)]
pub struct UpdateTicketRequest {
    pub id: String,
    pub status: Option<String>,
    pub assignee: Option<String>,
    pub category: Option<String>,
    pub title: Option<String>,
    pub description: Option<String>,
}

/// The mathematical value of an [`UpdateTicketRequest`].
pub struct TicketPatch {
    pub id: Seq<char>,
    pub status: Option<Seq<char>>,
    pub assignee: Option<Seq<char>>,
    pub category: Option<Seq<char>>,
    pub title: Option<Seq<char>>,
    pub description: Option<Seq<char>>,
}

impl View for UpdateTicketRequest {
    type V = TicketPatch;

    open spec fn view(&self) -> TicketPatch {
        TicketPatch {
            id: self.id@,
            status: match self.status {
                Some(ref s) => Some(s@),
                None => None,
            },
            assignee: match self.assignee {
                Some(ref s) => Some(s@),
                None => None,
            },
            category: match self.category {
                Some(ref s) => Some(s@),
                None => None,
            },
            title: match self.title {
                Some(ref s) => Some(s@),
                None => None,
            },
            description: match self.description {
                Some(ref s) => Some(s@),
                None => None,
            },
        }
    }
}

/// A patch with every optional field absent: such a no-op update is
/// rejected rather than silently accepted.
pub open spec fn patch_empty(p: TicketPatch) -> bool {
    &&& p.status is None
    &&& p.assignee is None
    &&& p.category is None
    &&& p.title is None
    &&& p.description is None
}

/// The row that a partial update produces: exactly the fields present in
/// the patch change, `updated_at` is refreshed to the given timestamp, and
/// every other field (in particular `id` and `created_date`) is kept.
pub open spec fn patched(t: TicketV, p: TicketPatch, now: Seq<char>) -> TicketV {
    TicketV {
        id: t.id,
        category: match p.category {
            Some(v) => v,
            None => t.category,
        },
        title: match p.title {
            Some(v) => v,
            None => t.title,
        },
        description: match p.description {
            Some(v) => v,
            None => t.description,
        },
        created_date: t.created_date,
        assignee: match p.assignee {
            Some(v) => v,
            None => t.assignee,
        },
        reporter: t.reporter,
        status: match p.status {
            Some(v) => v,
            None => t.status,
        },
        updated_at: now,
    }
}

/// Lexicographic code-point order on text: `a` is at or before `b`. For
/// UTF-8 this is exactly the byte order the storage engine sorts text by.
pub open spec fn str_le(a: Seq<char>, b: Seq<char>) -> bool
    decreases a.len(),
{
    if a.len() == 0 {
        true
    } else if b.len() == 0 {
        false
    } else if (a[0] as u32) < (b[0] as u32) {
        true
    } else if (a[0] as u32) > (b[0] as u32) {
        false
    } else {
        str_le(a.drop_first(), b.drop_first())
    }
}

/// Why a login failed. Unknown username and wrong password are deliberately
/// merged into the one `InvalidCredentials` value, so the two causes are
/// indistinguishable to the caller.
#[derive(Debug, Clone, Copy, PartialEq, Eq, Structural)]
pub enum AuthError {
    InvalidCredentials,
    Storage,
}

impl AuthError {
    /// The short, stable message identifying the kind; no internal detail
    /// and never a stored hash.
    pub fn message(&self) -> (r: &'static str)
        ensures
            *self is InvalidCredentials ==> r@ == "Invalid credentials"@,
            *self is Storage ==> r@ == "Storage error"@,
    {
        match self {
            AuthError::InvalidCredentials => "Invalid credentials",
            AuthError::Storage => "Storage error",
        }
    }
}

/// Why an exact-id lookup failed.
#[derive(Debug, Clone, Copy, PartialEq, Eq, Structural)]
pub enum GetError {
    NotFound,
    Storage,
}

impl GetError {
    /// The short, stable message identifying the kind.
    pub fn message(&self) -> (r: &'static str)
        ensures
            *self is NotFound ==> r@ == "Ticket not found"@,
            *self is Storage ==> r@ == "Storage error"@,
    {
        match self {
            GetError::NotFound => "Ticket not found",
            GetError::Storage => "Storage error",
        }
    }
}

/// Why a partial update failed.
#[derive(Debug, Clone, Copy, PartialEq, Eq, Structural)]
pub enum UpdateError {
    NoFields,
    NotFound,
    Storage,
}

impl UpdateError {
    /// The short, stable message identifying the kind.
    pub fn message(&self) -> (r: &'static str)
        ensures
            *self is NoFields ==> r@ == "No fields to update"@,
            *self is NotFound ==> r@ == "Ticket not found"@,
            *self is Storage ==> r@ == "Storage error"@,
    {
        match self {
            UpdateError::NoFields => "No fields to update",
            UpdateError::NotFound => "Ticket not found",
            UpdateError::Storage => "Storage error",
        }
    }
}

/// The storage engine failed on an operation; during bootstrap this is
/// fatal, afterwards it is returned to the caller as data.
#[derive(Debug, Clone, Copy, PartialEq, Eq, Structural)]
pub struct StorageError;

impl StorageError {
    /// The short, stable message identifying the kind.
    pub fn message(&self) -> (r: &'static str)
        ensures
            r@ == "Storage error"@,
    {
        "Storage error"
    }
}

} // verus!
