use vstd::prelude::*;

use crate::error::ApiError;
use crate::repository::{find_todo, has_id, views_of, TodoRepository};
use crate::todo::{NewTodo, PatchFields, Todo, TodoView};

verus! {

/// The orchestration layer over a repository port. Today every method
/// forwards unchanged — the current behaviour performs no validation beyond
/// what request deserialization already enforces — but this is the seam
/// where field validation would sit, so its contracts restate the port's.
pub struct TodoService<R: TodoRepository> {
    pub repo: R,
}

impl<R: TodoRepository> TodoService<R> {
    /// The table contents seen through the service: exactly the
    /// repository's.
    pub open spec fn todos(&self) -> Seq<TodoView> {
        self.repo.todos()
    }

    /// A service over the given repository.
    pub fn new(repo: R) -> (s: TodoService<R>)
        ensures
            s.repo == repo,
    {
        TodoService { repo }
    }

    /// Every row, in store order; an empty store yields an empty vector.
    pub fn get_todos(&self) -> (r: Vec<Todo>)
        requires
            self.repo.inv(),
        ensures
            views_of(r@) == self.todos(),
    {
        self.repo.get_all()
    }

    /// Create one row; see the port's contract.
    pub fn create_todo(&mut self, input: NewTodo) -> (r: Result<Todo, ApiError>)
        requires
            old(self).repo.inv(),
        ensures
            final(self).repo.inv(),
            r is Ok <==> old(self).repo.can_insert() && old(self).repo.can_touch(),
            match r {
                Ok(t) => {
                    &&& final(self).todos() == old(self).todos().push(t@)
                    &&& !has_id(old(self).todos(), t@.id)
                    &&& find_todo(final(self).todos(), t@.id) == Some(t@)
                    &&& t@.title == input@.title
                    &&& t@.status == input@.effective_status()
                    &&& t@.description == input@.effective_description()
                    &&& t@.user_id == input@.user_id
                    &&& t@.created_at == t@.updated_at
                },
                Err(e) => {
                    &&& final(self).todos() == old(self).todos()
                    &&& e.code == 500
                    &&& e.wf()
                },
            },
    {
        self.repo.create(input)
    }

    /// Fetch the row carrying `id`; see the port's contract.
    pub fn get_todo(&self, id: i32) -> (r: Result<Todo, ApiError>)
        requires
            self.repo.inv(),
        ensures
            r is Ok <==> has_id(self.todos(), id as int),
            match r {
                Ok(t) => find_todo(self.todos(), id as int) == Some(t@),
                Err(e) => {
                    &&& e.code == 404
                    &&& e.wf()
                },
            },
    {
        self.repo.get_by_id(id)
    }

    /// Apply a partial update to the row carrying `id`; see the port's
    /// contract.
    pub fn update_todo(&mut self, id: i32, patch: PatchFields) -> (r: Result<Todo, ApiError>)
        requires
            old(self).repo.inv(),
        ensures
            final(self).repo.inv(),
            r is Ok <==> !patch@.is_empty() && has_id(old(self).todos(), id as int)
                && old(self).repo.can_touch(),
            match r {
                Ok(t) => {
                    &&& match find_todo(old(self).todos(), id as int) {
                        Some(orig) => {
                            &&& t@ == patch@.applied_to(orig, t@.updated_at)
                            &&& t@.updated_at > orig.updated_at
                        },
                        None => false,
                    }
                    &&& exists|i: int|
                        0 <= i < old(self).todos().len()
                            && (#[trigger] old(self).todos()[i]).id == id as int
                            && final(self).todos() == old(self).todos().update(i, t@)
                    &&& find_todo(final(self).todos(), id as int) == Some(t@)
                },
                Err(e) => {
                    &&& final(self).todos() == old(self).todos()
                    &&& e.wf()
                    &&& (e.code == 400 <==> patch@.is_empty())
                    &&& (e.code == 404 <==> !patch@.is_empty() && !has_id(
                        old(self).todos(),
                        id as int,
                    ))
                    &&& (e.code == 500 <==> !patch@.is_empty() && has_id(
                        old(self).todos(),
                        id as int,
                    ))
                },
            },
    {
        self.repo.update_partial(id, patch)
    }

    /// Delete the row carrying `id`; see the port's contract.
    pub fn delete_todo(&mut self, id: i32) -> (r: Result<(), ApiError>)
        requires
            old(self).repo.inv(),
        ensures
            final(self).repo.inv(),
            r is Ok <==> has_id(old(self).todos(), id as int),
            match r {
                Ok(_) => {
                    &&& exists|i: int|
                        0 <= i < old(self).todos().len()
                            && (#[trigger] old(self).todos()[i]).id == id as int
                            && final(self).todos() == old(self).todos().remove(i)
                    &&& !has_id(final(self).todos(), id as int)
                },
                Err(e) => {
                    &&& final(self).todos() == old(self).todos()
                    &&& e.code == 404
                    &&& e.wf()
                },
            },
    {
        self.repo.delete(id)
    }
}

} // verus!
