use vstd::prelude::*;

use crate::error::ApiError;
use crate::todo::{NewTodo, PatchFields, Todo, TodoView};

verus! {

/// The views of a sequence of rows, in store order.
pub open spec fn views_of(s: Seq<Todo>) -> Seq<TodoView> {
    s.map_values(|t: Todo| t@)
}

/// Whether some row of `s` carries the identity `id`.
pub open spec fn has_id(s: Seq<TodoView>, id: int) -> bool {
    exists|i: int| 0 <= i < s.len() && s[i].id == id
}

/// No two rows of `s` share an identity.
pub open spec fn unique_ids(s: Seq<TodoView>) -> bool {
    forall|i: int, j: int|
        0 <= i < s.len() && 0 <= j < s.len() && i != j ==> s[i].id != s[j].id
}

/// Lookup by identity: the first row of `s` whose id is `id`, if any. With
/// unique identities this is the row a store returns for a point query.
pub open spec fn find_todo(s: Seq<TodoView>, id: int) -> Option<TodoView>
    decreases s.len(),
{
    if s.len() == 0 {
        None
    } else if s[0].id == id {
        Some(s[0])
    } else {
        find_todo(s.drop_first(), id)
    }
}

/// If `s[i]` carries `id` and no earlier row does, lookup returns `s[i]`.
pub proof fn lemma_find_todo_at(s: Seq<TodoView>, id: int, i: int)
    requires
        0 <= i < s.len(),
        s[i].id == id,
        forall|j: int| 0 <= j < i ==> s[j].id != id,
    ensures
        find_todo(s, id) == Some(s[i]),
    decreases i,
{
    if i > 0 {
        lemma_find_todo_at(s.drop_first(), id, i - 1);
    }
}

/// If no row of `s` carries `id`, lookup returns nothing.
pub proof fn lemma_find_todo_none(s: Seq<TodoView>, id: int)
    requires
        forall|j: int| 0 <= j < s.len() ==> s[j].id != id,
    ensures
        find_todo(s, id) is None,
    decreases s.len(),
{
    if s.len() > 0 {
        assert(forall|j: int|
            0 <= j < s.drop_first().len() ==> s.drop_first()[j] == s[j + 1]);
        lemma_find_todo_none(s.drop_first(), id);
    }
}

/// Law: a row created under a fresh identity is found by that identity,
/// unchanged, immediately after creation.
pub proof fn lemma_create_then_get(s: Seq<TodoView>, t: TodoView)
    requires
        !has_id(s, t.id),
    ensures
        find_todo(s.push(t), t.id) == Some(t),
{
    assert(forall|j: int| 0 <= j < s.len() ==> s[j].id != t.id);
    assert(forall|j: int| 0 <= j < s.len() ==> s.push(t)[j] == s[j]);
    lemma_find_todo_at(s.push(t), t.id, s.len() as int);
}

/// Law: after the row carrying `id` is removed from a store with unique
/// identities, lookup of `id` finds nothing.
pub proof fn lemma_delete_then_get(s: Seq<TodoView>, i: int, id: int)
    requires
        unique_ids(s),
        0 <= i < s.len(),
        s[i].id == id,
    ensures
        !has_id(s.remove(i), id),
        find_todo(s.remove(i), id) is None,
{
    let r = s.remove(i);
    assert(forall|j: int| 0 <= j < i ==> r[j] == s[j]);
    assert(forall|j: int| i <= j < r.len() ==> r[j] == s[j + 1]);
    assert(forall|j: int| 0 <= j < r.len() ==> r[j].id != id);
    lemma_find_todo_none(r, id);
}

/// The abstract persistence capability: one relational-style table of todo
/// rows keyed by an integer identity. Every operation acts on at most one
/// row; `todos()` is the table's mathematical contents in store order, and
/// `inv()` is the implementation's private well-formedness.
///
/// `can_insert()` and `can_touch()` name the implementation's resource
/// limits: whether one more identity, respectively one more mutation tick,
/// can be handed out. Creation and update fail with a store error exactly
/// when these run out.
pub trait TodoRepository: Sized {
    spec fn todos(&self) -> Seq<TodoView>;

    spec fn inv(&self) -> bool;

    spec fn can_insert(&self) -> bool;

    spec fn can_touch(&self) -> bool;

    /// The invariant keeps identities unique and rows well formed.
    proof fn inv_properties(&self)
        requires
            self.inv(),
        ensures
            unique_ids(self.todos()),
            forall|i: int| 0 <= i < self.todos().len() ==> (#[trigger] self.todos()[i]).wf(),
    ;

    /// Create one row from `input`: the store assigns a fresh identity and
    /// equal creation and update timestamps; absent status and description
    /// take their defaults. Fails (with a 500-mapped store error) exactly
    /// when the store's identity or tick supply is exhausted.
    fn create(&mut self, input: NewTodo) -> (r: Result<Todo, ApiError>)
        requires
            old(self).inv(),
        ensures
            final(self).inv(),
            r is Ok <==> old(self).can_insert() && old(self).can_touch(),
            match r {
                Ok(t) => {
                    &&& final(self).todos() == old(self).todos().push(t@)
                    &&& !has_id(old(self).todos(), t@.id)
                    &&& find_todo(final(self).todos(), t@.id) == Some(t@)
                    &&& t@.title == input@.title
                    &&& t@.status == input@.effective_status()
                    &&& t@.description == input@.effective_description()
                    &&& t@.user_id == input@.user_id
                    &&& t@.created_at == t@.updated_at
                },
                Err(e) => {
                    &&& *final(self) == *old(self)
                    &&& e.code == 500
                    &&& e.wf()
                },
            },
    ;

    /// Every row, in store order; an empty store yields an empty vector,
    /// never an error.
    fn get_all(&self) -> (r: Vec<Todo>)
        requires
            self.inv(),
        ensures
            views_of(r@) == self.todos(),
            self.todos().len() == 0 ==> r@.len() == 0,
    ;

    /// The row carrying `id`, or a 404-mapped error exactly when no row
    /// does.
    fn get_by_id(&self, id: i32) -> (r: Result<Todo, ApiError>)
        requires
            self.inv(),
        ensures
            r is Ok <==> has_id(self.todos(), id as int),
            match r {
                Ok(t) => find_todo(self.todos(), id as int) == Some(t@),
                Err(e) => {
                    &&& e.code == 404
                    &&& e.wf()
                },
            },
    ;

    /// Apply `patch` to the row carrying `id`: exactly the supplied columns
    /// change and the update timestamp strictly increases. An empty patch is
    /// rejected (400) before anything else; a missing row yields 404; an
    /// exhausted tick supply yields a 500-mapped store error.
    fn update_partial(&mut self, id: i32, patch: PatchFields) -> (r: Result<Todo, ApiError>)
        requires
            old(self).inv(),
        ensures
            final(self).inv(),
            final(self).can_insert() == old(self).can_insert(),
            r is Ok <==> !patch@.is_empty() && has_id(old(self).todos(), id as int)
                && old(self).can_touch(),
            match r {
                Ok(t) => {
                    &&& match find_todo(old(self).todos(), id as int) {
                        Some(orig) => {
                            &&& t@ == patch@.applied_to(orig, t@.updated_at)
                            &&& t@.updated_at > orig.updated_at
                        },
                        None => false,
                    }
                    &&& exists|i: int|
                        0 <= i < old(self).todos().len()
                            && (#[trigger] old(self).todos()[i]).id == id as int
                            && final(self).todos() == old(self).todos().update(i, t@)
                    &&& find_todo(final(self).todos(), id as int) == Some(t@)
                },
                Err(e) => {
                    &&& *final(self) == *old(self)
                    &&& e.wf()
                    &&& (e.code == 400 <==> patch@.is_empty())
                    &&& (e.code == 404 <==> !patch@.is_empty() && !has_id(
                        old(self).todos(),
                        id as int,
                    ))
                    &&& (e.code == 500 <==> !patch@.is_empty() && has_id(
                        old(self).todos(),
                        id as int,
                    ))
                },
            },
    ;

    /// Remove the row carrying `id` for good, or report 404 exactly when no
    /// row does; nothing else changes.
    fn delete(&mut self, id: i32) -> (r: Result<(), ApiError>)
        requires
            old(self).inv(),
        ensures
            final(self).inv(),
            final(self).can_insert() == old(self).can_insert(),
            final(self).can_touch() == old(self).can_touch(),
            r is Ok <==> has_id(old(self).todos(), id as int),
            match r {
                Ok(_) => {
                    &&& exists|i: int|
                        0 <= i < old(self).todos().len()
                            && (#[trigger] old(self).todos()[i]).id == id as int
                            && final(self).todos() == old(self).todos().remove(i)
                    &&& !has_id(final(self).todos(), id as int)
                },
                Err(e) => {
                    &&& *final(self) == *old(self)
                    &&& e.code == 404
                    &&& e.wf()
                },
            },
    ;
}

} // verus!
