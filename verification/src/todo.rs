use vstd::prelude::*;
use vstd::string::StringExecFns;

verus! {

/// The mathematical value of a persisted todo row: identity, the three text
/// columns, the owning caller, and the two store-assigned timestamps.
#[verifier::ext_equal]
pub ghost struct TodoView {
    pub id: int,
    pub title: Seq<char>,
    pub status: Seq<char>,
    pub description: Seq<char>,
    pub user_id: Seq<char>,
    pub created_at: int,
    pub updated_at: int,
}

impl TodoView {
    /// The entity invariant: a row is never observed with an update time
    /// before its creation time.
    pub open spec fn wf(self) -> bool {
        self.created_at <= self.updated_at
    }
}

/// A persisted todo entity. The id and both timestamps are assigned by the
/// store; timestamps are carried as integer ticks so that their ordering is
/// part of the entity's invariant.
#[derive(Debug)]
pub struct Todo {
    pub id: i32,
    pub title: String,
    pub status: String,
    pub description: String,
    pub user_id: String,
    pub created_at: i64,
    pub updated_at: i64,
}

impl View for Todo {
    type V = TodoView;

    open spec fn view(&self) -> TodoView {
        TodoView {
            id: self.id as int,
            title: self.title@,
            status: self.status@,
            description: self.description@,
            user_id: self.user_id@,
            created_at: self.created_at as int,
            updated_at: self.updated_at as int,
        }
    }
}

/// The value of a creation request: required title and owner, with status and
/// description optional and defaulted before persistence.
#[verifier::ext_equal]
pub ghost struct NewTodoView {
    pub title: Seq<char>,
    pub status: Option<Seq<char>>,
    pub description: Option<Seq<char>>,
    pub user_id: Seq<char>,
}

/// A creation request. `title` and `user_id` are required; absent `status`
/// and `description` receive the defaults `"todo"` and `""`.
#[derive(Debug)]
pub struct NewTodo {
    pub title: String,
    pub status: Option<String>,
    pub description: Option<String>,
    pub user_id: String,
}

impl View for NewTodo {
    type V = NewTodoView;

    open spec fn view(&self) -> NewTodoView {
        NewTodoView {
            title: self.title@,
            status: match self.status {
                Some(s) => Some(s@),
                None => None,
            },
            description: match self.description {
                Some(d) => Some(d@),
                None => None,
            },
            user_id: self.user_id@,
        }
    }
}

impl NewTodoView {
    /// The status column that creation persists: the supplied value, or the
    /// default `"todo"`.
    pub open spec fn effective_status(self) -> Seq<char> {
        match self.status {
            Some(s) => s,
            None => "todo"@,
        }
    }

    /// The description column that creation persists: the supplied value, or
    /// the empty default.
    pub open spec fn effective_description(self) -> Seq<char> {
        match self.description {
            Some(d) => d,
            None => Seq::empty(),
        }
    }
}

impl NewTodo {
    /// The four column values creation binds, in declared order — title,
    /// status, description, owner — with the defaults applied to the absent
    /// optional fields.
    pub fn into_columns(self) -> (r: (String, String, String, String))
        ensures
            r.0@ == self@.title,
            r.1@ == self@.effective_status(),
            r.2@ == self@.effective_description(),
            r.3@ == self@.user_id,
    {
        let status = match self.status {
            Some(s) => s,
            None => String::from_str("todo"),
        };
        let description = match self.description {
            Some(d) => d,
            None => String::new(),
        };
        (self.title, status, description, self.user_id)
    }

    /// The row that creation persists once the store has assigned `id` and
    /// the tick `tick`: required fields as supplied, defaults applied to the
    /// absent ones, and both timestamps equal.
    pub fn into_row(self, id: i32, tick: i64) -> (r: Todo)
        ensures
            r@.id == id as int,
            r@.title == self@.title,
            r@.status == self@.effective_status(),
            r@.description == self@.effective_description(),
            r@.user_id == self@.user_id,
            r@.created_at == tick as int,
            r@.updated_at == tick as int,
    {
        Todo {
            id,
            title: self.title,
            status: match self.status {
                Some(s) => s,
                None => String::from_str("todo"),
            },
            description: match self.description {
                Some(d) => d,
                None => String::new(),
            },
            user_id: self.user_id,
            created_at: tick,
            updated_at: tick,
        }
    }
}

/// The value of a partial update: each field is either absent (leave the
/// column unchanged) or present with the text to store.
#[verifier::ext_equal]
pub ghost struct PatchView {
    pub title: Option<Seq<char>>,
    pub status: Option<Seq<char>>,
    pub description: Option<Seq<char>>,
}

impl PatchView {
    /// A patch with no fields at all; such a request is rejected.
    pub open spec fn is_empty(self) -> bool {
        self.title is None && self.status is None && self.description is None
    }

    /// The row that results from applying this patch to `t` at tick `now`:
    /// exactly the supplied columns change, `updated_at` is refreshed, and
    /// id, owner and `created_at` are untouched.
    pub open spec fn applied_to(self, t: TodoView, now: int) -> TodoView {
        TodoView {
            id: t.id,
            title: match self.title {
                Some(s) => s,
                None => t.title,
            },
            status: match self.status {
                Some(s) => s,
                None => t.status,
            },
            description: match self.description {
                Some(s) => s,
                None => t.description,
            },
            user_id: t.user_id,
            created_at: t.created_at,
            updated_at: now,
        }
    }
}

/// A partial-update request; absent fields mean "leave unchanged". At least
/// one field must be present for the request to be accepted.
#[derive(Debug)]
pub struct PatchFields {
    pub title: Option<String>,
    pub status: Option<String>,
    pub description: Option<String>,
}

impl View for PatchFields {
    type V = PatchView;

    open spec fn view(&self) -> PatchView {
        PatchView {
            title: match self.title {
                Some(s) => Some(s@),
                None => None,
            },
            status: match self.status {
                Some(s) => Some(s@),
                None => None,
            },
            description: match self.description {
                Some(s) => Some(s@),
                None => None,
            },
        }
    }
}

impl PatchFields {
    /// Whether the patch carries no fields; the guard that rejects such a
    /// request runs before any statement is built.
    pub fn is_empty(&self) -> (r: bool)
        ensures
            r == self@.is_empty(),
    {
        self.title.is_none() && self.status.is_none() && self.description.is_none()
    }

    /// The row after this patch is applied to `t` at tick `now`: exactly the
    /// supplied columns are replaced and the update timestamp is refreshed.
    pub fn apply_to(self, t: &Todo, now: i64) -> (r: Todo)
        ensures
            r@ == self@.applied_to(t@, now as int),
    {
        Todo {
            id: t.id,
            title: match self.title {
                Some(s) => s,
                None => t.title.clone(),
            },
            status: match self.status {
                Some(s) => s,
                None => t.status.clone(),
            },
            description: match self.description {
                Some(s) => s,
                None => t.description.clone(),
            },
            user_id: t.user_id.clone(),
            created_at: t.created_at,
            updated_at: now,
        }
    }
}

/// An exact copy of a row; the copy has the same view as the original.
pub fn clone_todo(t: &Todo) -> (r: Todo)
    ensures
        r@ == t@,
{
    Todo {
        id: t.id,
        title: t.title.clone(),
        status: t.status.clone(),
        description: t.description.clone(),
        user_id: t.user_id.clone(),
        created_at: t.created_at,
        updated_at: t.updated_at,
    }
}

} // verus!
