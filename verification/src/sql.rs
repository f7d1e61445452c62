use vstd::prelude::*;
use vstd::string::StringExecFns;

use crate::error::ApiError;
use crate::todo::{PatchFields, PatchView};

verus! {

/// The fixed creation statement: every column the caller supplies, bound
/// positionally in declared order, echoing the stored row back.
pub fn insert_sql() -> (r: String)
    ensures
        r@
            == "INSERT INTO todo (title, status, description, user_id) VALUES ($1, $2, $3, $4) RETURNING id, title, status, description, user_id, created_at, updated_at"@,
{
    String::from_str(
        "INSERT INTO todo (title, status, description, user_id) VALUES ($1, $2, $3, $4) RETURNING id, title, status, description, user_id, created_at, updated_at",
    )
}

/// The fixed statement listing every row.
pub fn select_all_sql() -> (r: String)
    ensures
        r@ == "SELECT id, title, status, description, user_id, created_at, updated_at FROM todo"@,
{
    String::from_str(
        "SELECT id, title, status, description, user_id, created_at, updated_at FROM todo",
    )
}

/// The fixed point query; the id is bound at `$1`.
pub fn select_by_id_sql() -> (r: String)
    ensures
        r@
            == "SELECT id, title, status, description, user_id, created_at, updated_at FROM todo WHERE id = $1"@,
{
    String::from_str(
        "SELECT id, title, status, description, user_id, created_at, updated_at FROM todo WHERE id = $1",
    )
}

/// The fixed deletion statement; the id is bound at `$1`.
pub fn delete_sql() -> (r: String)
    ensures
        r@ == "DELETE FROM todo WHERE id = $1"@,
{
    String::from_str("DELETE FROM todo WHERE id = $1")
}

/// The text of the positional placeholder `$i`. A patch binds at most three
/// values, so with the trailing id the index never passes 4.
pub open spec fn placeholder(i: int) -> Seq<char> {
    if i == 1 {
        "$1"@
    } else if i == 2 {
        "$2"@
    } else if i == 3 {
        "$3"@
    } else {
        "$4"@
    }
}

/// The values a dynamic update binds, in the fixed declared column order:
/// status, then title, then description — exactly the supplied fields.
pub open spec fn update_binds(p: PatchView) -> Seq<Seq<char>> {
    (match p.status {
        Some(s) => seq![s],
        None => Seq::empty(),
    }) + (match p.title {
        Some(s) => seq![s],
        None => Seq::empty(),
    }) + (match p.description {
        Some(s) => seq![s],
        None => Seq::empty(),
    })
}

/// The text of the dynamic update statement for a non-empty patch: an
/// assignment per supplied column in declared order, positional placeholders
/// numbered from 1, and a trailing WHERE on the id bound right after the
/// field values. The text depends only on which fields are present, never
/// on their values.
pub open spec fn update_sql(p: PatchView) -> Seq<char> {
    let n_s: int = if p.status is Some {
        1
    } else {
        0
    };
    let n_t: int = if p.title is Some {
        1
    } else {
        0
    };
    let n_d: int = if p.description is Some {
        1
    } else {
        0
    };
    "UPDATE todo SET "@ + (match p.status {
        Some(_) => "status = "@ + placeholder(1),
        None => Seq::empty(),
    }) + (match p.title {
        Some(_) => (if n_s > 0 {
            ", "@
        } else {
            Seq::empty()
        }) + "title = "@ + placeholder(1 + n_s),
        None => Seq::empty(),
    }) + (match p.description {
        Some(_) => (if n_s + n_t > 0 {
            ", "@
        } else {
            Seq::empty()
        }) + "description = "@ + placeholder(1 + n_s + n_t),
        None => Seq::empty(),
    }) + " WHERE id = "@ + placeholder(1 + n_s + n_t + n_d)
}

/// Law: the statement text is a function of the patch's shape alone — two
/// patches supplying the same set of fields yield letter-for-letter the same
/// text, so a bound value is never interpolated into SQL.
pub proof fn lemma_update_sql_value_free(p1: PatchView, p2: PatchView)
    requires
        p1.status is Some <==> p2.status is Some,
        p1.title is Some <==> p2.title is Some,
        p1.description is Some <==> p2.description is Some,
    ensures
        update_sql(p1) == update_sql(p2),
{
}

/// Interpret the affected-row count of a point mutation on one id: zero
/// rows means no row carries that id, which is a 404, never a success.
pub fn rows_affected_outcome(rows: u64) -> (r: Result<(), ApiError>)
    ensures
        r is Ok <==> rows > 0,
        match r {
            Ok(_) => true,
            Err(e) => {
                &&& e.code == 404
                &&& e.wf()
            },
        },
{
    if rows > 0 {
        Ok(())
    } else {
        Err(ApiError::not_found())
    }
}

/// The views of the bound values, in bind order.
pub open spec fn bind_views(s: Seq<String>) -> Seq<Seq<char>> {
    s.map_values(|v: String| v@)
}

/// A ready-to-execute dynamic update: the statement text and the values for
/// its positional placeholders, in order; the row id is bound last, at the
/// placeholder after the field values.
#[derive(Debug)]
pub struct UpdatePlan {
    pub sql: String,
    pub binds: Vec<String>,
}

fn placeholder_str(i: usize) -> (r: &'static str)
    requires
        1 <= i <= 4,
    ensures
        r@ == placeholder(i as int),
{
    if i == 1 {
        "$1"
    } else if i == 2 {
        "$2"
    } else if i == 3 {
        "$3"
    } else {
        "$4"
    }
}

/// Build the dynamic partial-update statement. An empty patch is rejected
/// here, before any SQL exists — a SET clause with no assignments is
/// malformed. For a non-empty patch the plan carries exactly the statement
/// `update_sql` prescribes and exactly the supplied values, in declared
/// column order.
pub fn build_update(patch: &PatchFields) -> (r: Result<UpdatePlan, ApiError>)
    ensures
        r is Ok <==> !patch@.is_empty(),
        match r {
            Ok(plan) => {
                &&& plan.sql@ == update_sql(patch@)
                &&& bind_views(plan.binds@) == update_binds(patch@)
            },
            Err(e) => {
                &&& e.code == 400
                &&& e.wf()
            },
        },
{
    if patch.is_empty() {
        return Err(ApiError::validation());
    }
    let mut sql = String::from_str("UPDATE todo SET ");
    let mut binds: Vec<String> = Vec::new();
    let mut idx: usize = 1;
    if let Some(s) = &patch.status {
        sql.append("status = ");
        sql.append(placeholder_str(idx));
        binds.push(s.clone());
        idx += 1;
    }
    if let Some(t) = &patch.title {
        if binds.len() > 0 {
            sql.append(", ");
        }
        sql.append("title = ");
        sql.append(placeholder_str(idx));
        binds.push(t.clone());
        idx += 1;
    }
    if let Some(d) = &patch.description {
        if binds.len() > 0 {
            sql.append(", ");
        }
        sql.append("description = ");
        sql.append(placeholder_str(idx));
        binds.push(d.clone());
        idx += 1;
    }
    sql.append(" WHERE id = ");
    sql.append(placeholder_str(idx));
    proof {
        assert(sql@ =~= update_sql(patch@));
        assert(bind_views(binds@) =~= update_binds(patch@));
    }
    Ok(UpdatePlan { sql, binds })
}

} // verus!
