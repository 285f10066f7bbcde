//! The cross-operation laws of the store, each proved from the very
//! postconditions the operations carry.

use vstd::prelude::*;
use crate::db::bcrypt_matches;
use crate::domain::AuthError;
use crate::domain::GetError;
use crate::domain::Ticket;
use crate::domain::TicketPatch;
use crate::domain::TicketV;
use crate::domain::UpdateError;
use crate::domain::User;
use crate::domain::UserV;
use crate::domain::patch_empty;
use crate::store::admin_username;
use crate::store::bootstrap_post;
use crate::store::get_post;
use crate::store::login_post;
use crate::store::update_post;

verus! {

/// Idempotent bootstrap: a second bootstrap pass over a store the first
/// one left behind changes neither table — there is still the one `admin`
/// row and the same tickets, sample count included.
pub proof fn lemma_bootstrap_idempotent(
    u0: Map<Seq<char>, UserV>,
    t0: Map<Seq<char>, TicketV>,
    u1: Map<Seq<char>, UserV>,
    t1: Map<Seq<char>, TicketV>,
    u2: Map<Seq<char>, UserV>,
    t2: Map<Seq<char>, TicketV>,
)
    requires
        bootstrap_post(u0, t0, u1, t1),
        bootstrap_post(u1, t1, u2, t2),
    ensures
        u2 == u1,
        t2 == t1,
        u1.contains_key(admin_username()),
{
}

/// Credential indistinguishability: an unknown username and a known
/// username with a wrong password come back as the identical error value,
/// wherever storage itself did not fail.
pub proof fn lemma_credential_indistinguishability(
    users: Map<Seq<char>, UserV>,
    name_a: Seq<char>,
    pw_a: Seq<char>,
    name_b: Seq<char>,
    pw_b: Seq<char>,
    r_a: Result<User, AuthError>,
    r_b: Result<User, AuthError>,
)
    requires
        login_post(users, name_a, pw_a, r_a),
        login_post(users, name_b, pw_b, r_b),
        !users.contains_key(name_a),
        users.contains_key(name_b),
        !bcrypt_matches(pw_b, users[name_b].password_hash),
        r_a != Err::<User, AuthError>(AuthError::Storage),
        r_b != Err::<User, AuthError>(AuthError::Storage),
    ensures
        r_a == r_b,
        r_a == Err::<User, AuthError>(AuthError::InvalidCredentials),
{
    match r_a {
        Ok(_) => {
            assert(false);
        },
        Err(e) => {
            assert(e != AuthError::Storage);
            assert(e == AuthError::InvalidCredentials);
        },
    }
    match r_b {
        Ok(_) => {
            assert(false);
        },
        Err(e) => {
            assert(e != AuthError::Storage);
            assert(e == AuthError::InvalidCredentials);
        },
    }
}

/// Round trip: looking a ticket up right after it was put into the store
/// answers a record equal, field for field, to the one create returned.
pub proof fn lemma_create_get_round_trip(
    t0: Map<Seq<char>, TicketV>,
    t: TicketV,
    r: Result<Ticket, GetError>,
)
    requires
        get_post(t0.insert(t.id, t), t.id, r),
        r != Err::<Ticket, GetError>(GetError::Storage),
    ensures
        r matches Ok(g) && g@ == t,
{
}

/// Partial update isolation: a successful update changes exactly the
/// fields present in the patch plus `updated_at`. Every absent field of
/// the addressed row keeps its pre-update value, the immutable fields
/// (`id`, `created_date`, `reporter`) are kept in any case, and no other
/// row moves.
pub proof fn lemma_partial_update_isolation(
    t0: Map<Seq<char>, TicketV>,
    t1: Map<Seq<char>, TicketV>,
    p: TicketPatch,
    t: Ticket,
)
    requires
        update_post(t0, t1, p, Ok(t)),
    ensures
        t1 == t0.insert(p.id, t@),
        t@.id == t0[p.id].id,
        t@.created_date == t0[p.id].created_date,
        t@.reporter == t0[p.id].reporter,
        t@.status == (if p.status is Some {
            p.status->0
        } else {
            t0[p.id].status
        }),
        t@.assignee == (if p.assignee is Some {
            p.assignee->0
        } else {
            t0[p.id].assignee
        }),
        t@.category == (if p.category is Some {
            p.category->0
        } else {
            t0[p.id].category
        }),
        t@.title == (if p.title is Some {
            p.title->0
        } else {
            t0[p.id].title
        }),
        t@.description == (if p.description is Some {
            p.description->0
        } else {
            t0[p.id].description
        }),
        forall|k: Seq<char>|
            k != p.id && #[trigger] t0.contains_key(k) ==> t1.contains_key(k) && t1[k] == t0[k],
{
}

/// Not-found consistency: on an id the store does not hold, the lookup
/// and a non-empty update both answer their not-found error — never a
/// generic one — and the update leaves the store untouched.
pub proof fn lemma_not_found_consistency(
    tickets: Map<Seq<char>, TicketV>,
    tickets_after: Map<Seq<char>, TicketV>,
    id: Seq<char>,
    p: TicketPatch,
    r_get: Result<Ticket, GetError>,
    r_update: Result<Ticket, UpdateError>,
)
    requires
        !tickets.contains_key(id),
        p.id == id,
        !patch_empty(p),
        get_post(tickets, id, r_get),
        update_post(tickets, tickets_after, p, r_update),
        r_get != Err::<Ticket, GetError>(GetError::Storage),
        r_update != Err::<Ticket, UpdateError>(UpdateError::Storage),
    ensures
        r_get == Err::<Ticket, GetError>(GetError::NotFound),
        r_update == Err::<Ticket, UpdateError>(UpdateError::NotFound),
        tickets_after == tickets,
{
    match r_get {
        Ok(_) => {
            assert(false);
        },
        Err(e) => {
            assert(e == GetError::NotFound);
        },
    }
    match r_update {
        Ok(_) => {
            assert(false);
        },
        Err(e) => {
            assert(e != UpdateError::Storage);
            if e == UpdateError::NoFields {
                assert(patch_empty(p));
                assert(false);
            }
            assert(e == UpdateError::NotFound);
        },
    }
}

} // verus!
