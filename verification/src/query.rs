//! The dynamic update statement: a builder that accumulates the columns
//! present in a patch and emits one parameterized statement. The set of
//! columns is chosen dynamically, but values only ever travel in the
//! bound-parameter list, never in the statement text.

use vstd::prelude::*;
use vstd::string::StringExecFns;
use crate::domain::UpdateTicketRequest;
use crate::domain::TicketPatch;
use crate::domain::patch_empty;

verus! {

pub open spec fn frag(present: bool, text: Seq<char>) -> Seq<char> {
    if present {
        text
    } else {
        Seq::empty()
    }
}

/// The statement text for the columns present in `p`: every present column
/// contributes one `col = ?` assignment, `updated_at` is always set, and
/// the row is selected by a final bound `id` parameter.
pub open spec fn update_sql(p: TicketPatch) -> Seq<char> {
    "UPDATE tickets SET "@ + frag(p.status is Some, "status = ?, "@) + frag(
        p.assignee is Some,
        "assignee = ?, "@,
    ) + frag(p.category is Some, "category = ?, "@) + frag(p.title is Some, "title = ?, "@)
        + frag(p.description is Some, "description = ?, "@) + "updated_at = ? WHERE id = ?"@
}

pub open spec fn opt_param(v: Option<Seq<char>>) -> Seq<Seq<char>> {
    match v {
        Some(s) => seq![s],
        None => Seq::empty(),
    }
}

/// The values bound to the statement, in the order of its `?` markers: the
/// present patch values, then the fresh timestamp, then the row id.
pub open spec fn update_params(p: TicketPatch, now: Seq<char>) -> Seq<Seq<char>> {
    opt_param(p.status) + opt_param(p.assignee) + opt_param(p.category) + opt_param(p.title)
        + opt_param(p.description) + seq![now] + seq![p.id]
}

/// The built vector of bound values reads back, element by element, as `vs`.
pub open spec fn params_match(ps: Seq<String>, vs: Seq<Seq<char>>) -> bool {
    &&& ps.len() == vs.len()
    &&& forall|i: int| 0 <= i < ps.len() ==> #[trigger] ps[i]@ == vs[i]
}

/// One parameterized update statement together with its bound values.
pub struct UpdatePlan {
    pub sql: String,
    pub params: Vec<String>,
}

/// The plan is exactly the statement and value list that the patch `p`
/// with timestamp `now` call for.
pub open spec fn plan_wf(plan: UpdatePlan, p: TicketPatch, now: Seq<char>) -> bool {
    &&& !patch_empty(p)
    &&& plan.sql@ == update_sql(p)
    &&& params_match(plan.params@, update_params(p, now))
}

/// Accumulates the `(column, value)` pairs of the fields present in `req`
/// and emits the one parameterized statement; each value goes into the
/// bound-parameter list only.
pub fn build_update_plan(req: &UpdateTicketRequest, now: &String) -> (plan: UpdatePlan)
    requires
        !patch_empty(req@),
    ensures
        plan_wf(plan, req@, now@),
{
    let mut sql = String::from_str("UPDATE tickets SET ");
    let mut params: Vec<String> = Vec::new();
    if let Some(v) = &req.status {
        sql.append("status = ?, ");
        params.push(v.clone());
    }
    if let Some(v) = &req.assignee {
        sql.append("assignee = ?, ");
        params.push(v.clone());
    }
    if let Some(v) = &req.category {
        sql.append("category = ?, ");
        params.push(v.clone());
    }
    if let Some(v) = &req.title {
        sql.append("title = ?, ");
        params.push(v.clone());
    }
    if let Some(v) = &req.description {
        sql.append("description = ?, ");
        params.push(v.clone());
    }
    sql.append("updated_at = ? WHERE id = ?");
    params.push(now.clone());
    params.push(req.id.clone());
    proof {
        assert(sql@ =~= update_sql(req@));
        assert(params@.len() == update_params(req@, now@).len());
        assert forall|i: int| 0 <= i < params@.len() implies #[trigger] params@[i]@
            == update_params(req@, now@)[i] by {
            assert(params@[i]@ == update_params(req@, now@)[i]);
        }
    }
    UpdatePlan { sql, params }
}

} // verus!
