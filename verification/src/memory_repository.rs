use vstd::prelude::*;

use crate::error::ApiError;
use crate::repository::{
    has_id, lemma_create_then_get, lemma_delete_then_get, lemma_find_todo_at, unique_ids,
    views_of, TodoRepository,
};
use crate::todo::{clone_todo, NewTodo, PatchFields, Todo, TodoView};

verus! {

/// Row bounds kept by the in-memory store: every identity was assigned
/// below `next_id`, and every timestamp is a past tick of its clock.
pub open spec fn rows_bounded(s: Seq<TodoView>, next_id: int, clock: int) -> bool {
    forall|i: int|
        0 <= i < s.len() ==> {
            &&& 1 <= (#[trigger] s[i]).id < next_id
            &&& 0 <= s[i].created_at
            &&& s[i].created_at <= s[i].updated_at
            &&& s[i].updated_at <= clock
        }
}

/// The in-memory repository: a complete, store-free implementation of the
/// persistence port, usable for service-level work without a live store.
/// It owns identity assignment (a counter) and timestamp assignment (a
/// strictly increasing logical clock).
pub struct InMemoryTodoRepository {
    pub rows: Vec<Todo>,
    pub next_id: i32,
    pub clock: i64,
}

impl InMemoryTodoRepository {
    /// Well-formedness: identities are unique and below the counter, and
    /// every row's timestamps are ordered and no newer than the clock.
    pub open spec fn wf(&self) -> bool {
        &&& 1 <= self.next_id
        &&& 0 <= self.clock
        &&& rows_bounded(views_of(self.rows@), self.next_id as int, self.clock as int)
        &&& unique_ids(views_of(self.rows@))
    }

    /// An empty store, ready to assign identities from 1 on.
    pub fn new() -> (r: InMemoryTodoRepository)
        ensures
            r.inv(),
            r.todos() == Seq::<TodoView>::empty(),
            r.can_insert(),
            r.can_touch(),
    {
        let r = InMemoryTodoRepository { rows: Vec::new(), next_id: 1, clock: 0 };
        proof {
            assert(views_of(r.rows@) =~= Seq::<TodoView>::empty());
        }
        r
    }

    /// The position of the row carrying `id`, if any.
    fn find_index(&self, id: i32) -> (r: Option<usize>)
        ensures
            match r {
                Some(i) => {
                    &&& i < self.rows@.len()
                    &&& views_of(self.rows@)[i as int].id == id as int
                    &&& forall|j: int| 0 <= j < i ==> views_of(self.rows@)[j].id != id as int
                },
                None => !has_id(views_of(self.rows@), id as int),
            },
    {
        let n = self.rows.len();
        let mut i: usize = 0;
        while i < n
            invariant
                n == self.rows@.len(),
                i <= n,
                forall|j: int| 0 <= j < i ==> views_of(self.rows@)[j].id != id as int,
            decreases n - i,
        {
            if self.rows[i].id == id {
                return Some(i);
            }
            i += 1;
        }
        proof {
            if has_id(views_of(self.rows@), id as int) {
                let k = choose|k: int|
                    0 <= k < views_of(self.rows@).len() && views_of(self.rows@)[k].id
                        == id as int;
                assert(views_of(self.rows@)[k].id != id as int);
            }
        }
        None
    }
}

impl TodoRepository for InMemoryTodoRepository {
    open spec fn todos(&self) -> Seq<TodoView> {
        views_of(self.rows@)
    }

    open spec fn inv(&self) -> bool {
        self.wf()
    }

    /// One more identity can be assigned.
    open spec fn can_insert(&self) -> bool {
        self.next_id < i32::MAX
    }

    /// One more clock tick can be assigned.
    open spec fn can_touch(&self) -> bool {
        self.clock < i64::MAX
    }

    proof fn inv_properties(&self) {
    }

    fn create(&mut self, input: NewTodo) -> (r: Result<Todo, ApiError>) {
        if self.next_id == i32::MAX || self.clock == i64::MAX {
            return Err(ApiError::store(None));
        }
        let ghost pre = *self;
        let id = self.next_id;
        self.next_id = self.next_id + 1;
        self.clock = self.clock + 1;
        let tick = self.clock;
        let row = input.into_row(id, tick);
        let out = clone_todo(&row);
        proof {
            if has_id(views_of(self.rows@), id as int) {
                let k = choose|k: int|
                    0 <= k < views_of(self.rows@).len() && views_of(self.rows@)[k].id
                        == id as int;
                assert(views_of(self.rows@)[k].id < id as int);
            }
        }
        self.rows.push(row);
        proof {
            assert(views_of(self.rows@) =~= views_of(pre.rows@).push(row@));
            lemma_create_then_get(views_of(pre.rows@), row@);
            assert forall|i: int| 0 <= i < views_of(self.rows@).len() implies {
                &&& 1 <= (#[trigger] views_of(self.rows@)[i]).id < self.next_id
                &&& 0 <= views_of(self.rows@)[i].created_at
                &&& views_of(self.rows@)[i].created_at <= views_of(self.rows@)[i].updated_at
                &&& views_of(self.rows@)[i].updated_at <= self.clock
            } by {
                if i < views_of(pre.rows@).len() {
                    assert(views_of(self.rows@)[i] == views_of(pre.rows@)[i]);
                }
            }
        }
        Ok(out)
    }

    fn get_all(&self) -> (r: Vec<Todo>) {
        let mut out: Vec<Todo> = Vec::new();
        let n = self.rows.len();
        let mut i: usize = 0;
        while i < n
            invariant
                n == self.rows@.len(),
                i <= n,
                out@.len() == i,
                forall|j: int| 0 <= j < i ==> views_of(out@)[j] == views_of(self.rows@)[j],
            decreases n - i,
        {
            let ghost prev = out@;
            out.push(clone_todo(&self.rows[i]));
            proof {
                assert(views_of(out@)[i as int] == views_of(self.rows@)[i as int]);
                assert forall|j: int| 0 <= j < i implies views_of(out@)[j] == views_of(
                    self.rows@,
                )[j] by {
                    assert(out@[j] == prev[j]);
                    assert(views_of(prev)[j] == views_of(self.rows@)[j]);
                }
            }
            i += 1;
        }
        proof {
            assert(views_of(out@) =~= views_of(self.rows@));
        }
        out
    }

    fn get_by_id(&self, id: i32) -> (r: Result<Todo, ApiError>) {
        match self.find_index(id) {
            Some(i) => {
                let t = clone_todo(&self.rows[i]);
                proof {
                    lemma_find_todo_at(views_of(self.rows@), id as int, i as int);
                    assert(has_id(views_of(self.rows@), id as int)) by {
                        assert(views_of(self.rows@)[i as int].id == id as int);
                    }
                }
                Ok(t)
            },
            None => Err(ApiError::not_found()),
        }
    }

    fn update_partial(&mut self, id: i32, patch: PatchFields) -> (r: Result<Todo, ApiError>) {
        if patch.is_empty() {
            return Err(ApiError::validation());
        }
        match self.find_index(id) {
            None => Err(ApiError::not_found()),
            Some(i) => {
                if self.clock == i64::MAX {
                    return Err(ApiError::store(None));
                }
                let ghost pre = *self;
                self.clock = self.clock + 1;
                let tick = self.clock;
                let updated = patch.apply_to(&self.rows[i], tick);
                let out = clone_todo(&updated);
                proof {
                    lemma_find_todo_at(views_of(pre.rows@), id as int, i as int);
                    assert(has_id(views_of(pre.rows@), id as int)) by {
                        assert(views_of(pre.rows@)[i as int].id == id as int);
                    }
                }
                self.rows[i] = updated;
                proof {
                    assert(views_of(self.rows@) =~= views_of(pre.rows@).update(
                        i as int,
                        updated@,
                    ));
                    assert forall|j: int| 0 <= j < i implies views_of(self.rows@)[j].id
                        != id as int by {
                        assert(views_of(self.rows@)[j] == views_of(pre.rows@)[j]);
                    }
                    lemma_find_todo_at(views_of(self.rows@), id as int, i as int);
                    assert forall|a: int, b: int|
                        0 <= a < views_of(self.rows@).len() && 0 <= b < views_of(
                            self.rows@,
                        ).len() && a != b implies views_of(self.rows@)[a].id != views_of(
                        self.rows@,
                    )[b].id by {
                        assert(views_of(self.rows@)[a].id == views_of(pre.rows@)[a].id);
                        assert(views_of(self.rows@)[b].id == views_of(pre.rows@)[b].id);
                    }
                    assert forall|j: int| 0 <= j < views_of(self.rows@).len() implies {
                        &&& 1 <= (#[trigger] views_of(self.rows@)[j]).id < self.next_id
                        &&& 0 <= views_of(self.rows@)[j].created_at
                        &&& views_of(self.rows@)[j].created_at <= views_of(
                            self.rows@,
                        )[j].updated_at
                        &&& views_of(self.rows@)[j].updated_at <= self.clock
                    } by {
                        if j != i {
                            assert(views_of(self.rows@)[j] == views_of(pre.rows@)[j]);
                        }
                    }
                }
                Ok(out)
            },
        }
    }

    #[verifier::rlimit(50)]
    fn delete(&mut self, id: i32) -> (r: Result<(), ApiError>) {
        match self.find_index(id) {
            None => Err(ApiError::not_found()),
            Some(i) => {
                let ghost pre = *self;
                proof {
                    assert(has_id(views_of(pre.rows@), id as int)) by {
                        assert(views_of(pre.rows@)[i as int].id == id as int);
                    }
                    lemma_delete_then_get(views_of(pre.rows@), i as int, id as int);
                }
                self.rows.remove(i);
                proof {
                    assert(views_of(self.rows@) =~= views_of(pre.rows@).remove(i as int));
                    assert forall|j: int| 0 <= j < views_of(self.rows@).len() implies {
                        &&& 1 <= (#[trigger] views_of(self.rows@)[j]).id < self.next_id
                        &&& 0 <= views_of(self.rows@)[j].created_at
                        &&& views_of(self.rows@)[j].created_at <= views_of(
                            self.rows@,
                        )[j].updated_at
                        &&& views_of(self.rows@)[j].updated_at <= self.clock
                    } by {
                        if j < i {
                            assert(views_of(self.rows@)[j] == views_of(pre.rows@)[j]);
                        } else {
                            assert(views_of(self.rows@)[j] == views_of(pre.rows@)[j + 1]);
                        }
                    }
                    assert forall|a: int, b: int|
                        0 <= a < views_of(self.rows@).len() && 0 <= b < views_of(
                            self.rows@,
                        ).len() && a != b implies views_of(self.rows@)[a].id != views_of(
                        self.rows@,
                    )[b].id by {
                        let pa: int = if a < i { a } else { a + 1 };
                        let pb: int = if b < i { b } else { b + 1 };
                        assert(views_of(self.rows@)[a].id == views_of(pre.rows@)[pa].id);
                        assert(views_of(self.rows@)[b].id == views_of(pre.rows@)[pb].id);
                    }
                    assert((i as int) < old(self).todos().len());
                    assert((old(self).todos()[i as int]).id == id as int);
                    assert(self.todos() == old(self).todos().remove(i as int));
                }
                Ok(())
            },
        }
    }
}

} // verus!
