//! The todo store: an in-memory collection of todo records in insertion
//! order, with the five operations the service is built on. Every operation
//! keeps the store well formed: record ids stay pairwise distinct and each
//! record's `created_at` never exceeds its `updated_at`.

use vstd::prelude::*;

use crate::model::{QueryOptions, Todo, TodoError, TodoView, UpdateTodoSchema, UpdateView};

verus! {

/// Some record in `s` carries exactly this title.
pub open spec fn has_title(s: Seq<TodoView>, title: Seq<char>) -> bool {
    exists|i: int| 0 <= i < s.len() && s[i].title == title
}

/// Some record in `s` carries exactly this id.
pub open spec fn has_id(s: Seq<TodoView>, id: Seq<char>) -> bool {
    exists|i: int| 0 <= i < s.len() && s[i].id == id
}

/// No two records in `s` share a title.
pub open spec fn titles_unique(s: Seq<TodoView>) -> bool {
    forall|i: int, j: int|
        0 <= i < s.len() && 0 <= j < s.len() && i != j ==> s[i].title != s[j].title
}

/// No two records in `s` share an id.
pub open spec fn ids_unique(s: Seq<TodoView>) -> bool {
    forall|i: int, j: int|
        0 <= i < s.len() && 0 <= j < s.len() && i != j ==> s[i].id != s[j].id
}

/// Every record was created no later than it was last updated.
pub open spec fn timestamps_wf(s: Seq<TodoView>) -> bool {
    forall|i: int| 0 <= i < s.len() ==> s[i].created_at <= s[i].updated_at
}

/// The store's invariant: established by `TodoStore::new` and preserved by
/// every operation. Title uniqueness is deliberately not part of it: the
/// create operation refuses a duplicate title, but an update may rename a
/// record onto another record's title without being rejected, so it is
/// tracked separately (see `titles_unique` in the creates' contracts).
pub open spec fn store_wf(s: Seq<TodoView>) -> bool {
    ids_unique(s) && timestamps_wf(s)
}

/// The view of a record after a partial update: a supplied non-empty string
/// overrides the current one, and a supplied empty string or an absent field
/// keeps it.
pub open spec fn override_text(cur: Seq<char>, given: Option<Seq<char>>) -> Seq<char> {
    match given {
        Some(s) => if s.len() > 0 {
            s
        } else {
            cur
        },
        None => cur,
    }
}

/// The record that a successful update at time `now` leaves in place of `t`:
/// `id` and `created_at` are untouched, the text fields follow
/// `override_text`, the flag follows the supplied value if any, and
/// `updated_at` moves to `now` unless that would turn it back.
pub open spec fn apply_update(t: TodoView, u: UpdateView, now: i64) -> TodoView {
    TodoView {
        id: t.id,
        title: override_text(t.title, u.title),
        content: override_text(t.content, u.content),
        completed: match u.completed {
            Some(c) => c,
            None => t.completed,
        },
        created_at: t.created_at,
        updated_at: if now > t.updated_at {
            now
        } else {
            t.updated_at
        },
    }
}

/// The page number that the list operation works with: the given one, or 1.
pub open spec fn page_or_default(opts: QueryOptions) -> int {
    match opts.page {
        Some(p) => p as int,
        None => 1,
    }
}

/// The page size that the list operation works with: the given one, or 10.
pub open spec fn limit_or_default(opts: QueryOptions) -> int {
    match opts.limit {
        Some(l) => l as int,
        None => 10,
    }
}

/// The window of `s` that page `page` (1-based) of size `limit` shows:
/// `s[(page-1)*limit .. (page-1)*limit + limit]`, clipped to the records
/// that exist. A page of 0 clips the offset to the start, so pages 0 and 1
/// show the same window.
pub open spec fn page_of(s: Seq<TodoView>, page: int, limit: int) -> Seq<TodoView>
    recommends
        page >= 0,
        limit >= 0,
{
    let skip = if page >= 1 {
        (page - 1) * limit
    } else {
        0
    };
    if skip <= s.len() {
        s.subrange(skip, if skip + limit <= s.len() {
            skip + limit
        } else {
            s.len() as int
        })
    } else {
        Seq::empty()
    }
}

/// The in-memory todo collection, in insertion order. Its mathematical
/// value is the sequence of its records' views.
pub struct TodoStore {
    todos: Vec<Todo>,
}

impl View for TodoStore {
    type V = Seq<TodoView>;

    closed spec fn view(&self) -> Seq<TodoView> {
        self.todos@.map_values(|t: Todo| t@)
    }
}

impl TodoStore {
    /// The store a process starts with: empty.
    pub fn new() -> (s: Self)
        ensures
            s@ == Seq::<TodoView>::empty(),
            store_wf(s@),
            titles_unique(s@),
    {
        let s = TodoStore { todos: Vec::new() };
        proof {
            assert(s@ =~= Seq::<TodoView>::empty());
        }
        s
    }

    /// How many records the store holds.
    pub fn len(&self) -> (n: usize)
        ensures
            n == self@.len(),
    {
        self.todos.len()
    }

    /// The position of the first record carrying `id`, if any.
    fn find_index(&self, id: &String) -> (r: Option<usize>)
        ensures
            match r {
                Some(i) => i < self@.len() && self@[i as int].id == id@,
                None => !has_id(self@, id@),
            },
    {
        let n: usize = self.todos.len();
        let mut i: usize = 0;
        while i < n
            invariant
                n == self@.len(),
                i <= n,
                forall|j: int| 0 <= j < i ==> self@[j].id != id@,
            decreases n - i,
        {
            if self.todos[i].id == *id {
                return Some(i);
            }
            i += 1;
        }
        None
    }

    /// Whether some record already carries this title.
    pub fn contains_title(&self, title: &String) -> (r: bool)
        ensures
            r == has_title(self@, title@),
    {
        let n: usize = self.todos.len();
        let mut i: usize = 0;
        while i < n
            invariant
                n == self@.len(),
                i <= n,
                forall|j: int| 0 <= j < i ==> self@[j].title != title@,
            decreases n - i,
        {
            if self.todos[i].title == *title {
                assert(self@[i as int].title == title@);
                return true;
            }
            i += 1;
        }
        false
    }

    /// The records of one page, in insertion order: up to `limit` of them
    /// starting at `(page - 1) * limit`, clipped to the records that exist;
    /// an offset at or past the end yields an empty page, and a page of 0
    /// is shown as the first page. `page` defaults to 1 and `limit` to 10.
    /// There is no error condition. Copies are returned; the store is
    /// unchanged.
    pub fn list(&self, opts: &QueryOptions) -> (r: Vec<Todo>)
        ensures
            r@.map_values(|t: Todo| t@) == page_of(
                self@,
                page_or_default(*opts),
                limit_or_default(*opts),
            ),
    {
        let page: usize = match opts.page {
            Some(p) => p,
            None => 1,
        };
        let limit: usize = match opts.limit {
            Some(l) => l,
            None => 10,
        };
        let base: usize = if page >= 1 {
            page - 1
        } else {
            0
        };
        let n: usize = self.todos.len();
        let out: Vec<Todo> = Vec::new();
        let offset: usize = match base.checked_mul(limit) {
            Some(o) => o,
            None => {
                // the window starts beyond any length a collection can have
                proof {
                    assert(out@.map_values(|t: Todo| t@) =~= Seq::<TodoView>::empty());
                }
                return out;
            },
        };
        if offset >= n {
            proof {
                assert(out@.map_values(|t: Todo| t@) =~= Seq::<TodoView>::empty());
                if base * limit <= self@.len() {
                    assert(page_of(self@, page as int, limit as int) =~= Seq::<TodoView>::empty());
                }
            }
            return out;
        }
        let mut out = out;
        let mut i: usize = offset;
        while i < n && out.len() < limit
            invariant
                n == self@.len(),
                offset <= i <= n,
                out@.len() == i - offset,
                out@.len() <= limit,
                out@.map_values(|t: Todo| t@) =~= self@.subrange(offset as int, i as int),
            decreases n - i,
        {
            let t = self.todos[i].clone();
            out.push(t);
            proof {
                assert(out@.map_values(|t: Todo| t@) =~= self@.subrange(offset as int, i + 1));
            }
            i += 1;
        }
        proof {
            assert(out@.map_values(|t: Todo| t@) =~= page_of(
                self@,
                page as int,
                limit as int,
            ));
        }
        out
    }

    /// Fetch a copy of the record carrying `id`; fails with `NotFound`, and
    /// only then, when no record carries it.
    pub fn get(&self, id: &String) -> (r: Result<Todo, TodoError>)
        requires
            store_wf(self@),
        ensures
            match r {
                Ok(t) => has_id(self@, id@) && t@.id == id@ && forall|j: int|
                    0 <= j < self@.len() && self@[j].id == id@ ==> self@[j] == t@,
                Err(e) => e == TodoError::NotFound && !has_id(self@, id@),
            },
    {
        match self.find_index(id) {
            Some(i) => {
                let t = self.todos[i].clone();
                proof {
                    assert(t@ == self@[i as int]);
                    assert forall|j: int|
                        0 <= j < self@.len() && self@[j].id == id@ implies self@[j] == t@ by {
                        if j != i as int {
                            assert(self@[j].id != self@[i as int].id);
                        }
                    }
                }
                Ok(t)
            },
            None => Err(TodoError::NotFound),
        }
    }

    /// Create a record from a caller-supplied fresh id and timestamp: the
    /// new record is appended with `completed` not yet set and both
    /// timestamps at `now`, and returned. The operation fails with
    /// `Conflict`, changing nothing, exactly when a record with this title
    /// already exists.
    pub fn create_with(&mut self, title: String, content: String, id: String, now: i64) -> (r:
        Result<Todo, TodoError>)
        requires
            store_wf(old(self)@),
            !has_id(old(self)@, id@),
        ensures
            store_wf(final(self)@),
            titles_unique(old(self)@) ==> titles_unique(final(self)@),
            match r {
                Ok(t) => !has_title(old(self)@, title@) && t@ == (TodoView {
                    id: id@,
                    title: title@,
                    content: content@,
                    completed: false,
                    created_at: now,
                    updated_at: now,
                }) && final(self)@ == old(self)@.push(t@),
                Err(e) => e == TodoError::Conflict && has_title(old(self)@, title@)
                    && final(self)@ == old(self)@,
            },
    {
        if self.contains_title(&title) {
            return Err(TodoError::Conflict);
        }
        let todo = Todo { id, title, content, completed: false, created_at: now, updated_at: now };
        let out = todo.clone();
        self.todos.push(todo);
        proof {
            assert(self@ =~= old(self)@.push(out@));
            lemma_append_fresh_id_keeps_ids_unique(old(self)@, out@);
            if titles_unique(old(self)@) {
                lemma_append_fresh_title_keeps_titles_unique(old(self)@, out@);
            }
        }
        Ok(out)
    }

    /// Create a record: draw a fresh id and the current time, then append.
    /// A title that is already taken is refused with `Conflict` and changes
    /// nothing. The freshly drawn id is checked against the records too, and
    /// in the (astronomically unlikely) case that the draw is already taken
    /// the create is refused the same way rather than storing a duplicate
    /// id; on the empty store no draw can collide, so there a create always
    /// succeeds.
    pub fn create(&mut self, title: String, content: String) -> (r: Result<Todo, TodoError>)
        requires
            store_wf(old(self)@),
        ensures
            store_wf(final(self)@),
            titles_unique(old(self)@) ==> titles_unique(final(self)@),
            has_title(old(self)@, title@) ==> r is Err,
            old(self)@.len() == 0 ==> r is Ok,
            match r {
                Ok(t) => !has_title(old(self)@, title@) && !has_id(old(self)@, t@.id) && t@.title
                    == title@ && t@.content == content@ && t@.completed == false && t@.created_at
                    == t@.updated_at && t@.id.len() == 36 && final(self)@ == old(self)@.push(t@),
                Err(e) => e == TodoError::Conflict && final(self)@ == old(self)@,
            },
    {
        let id = crate::ids::fresh_id();
        let now = crate::clock::now_millis();
        if self.contains_id(&id) {
            return Err(TodoError::Conflict);
        }
        self.create_with(title, content, id, now)
    }

    /// Update the record carrying `id` at time `now`: only supplied fields
    /// override, a supplied empty string for `title` or `content` counts as
    /// "not provided" (the current value is kept), `id` and `created_at` are
    /// preserved, and `updated_at` moves to `now` unless that would turn it
    /// back. Fails with `NotFound`, changing nothing, exactly when no record
    /// carries the id. Deliberately, the new title is not checked against
    /// the other records — title uniqueness is enforced at creation only —
    /// so an update may duplicate a title.
    pub fn update_with(&mut self, id: &String, body: &UpdateTodoSchema, now: i64) -> (r: Result<
        Todo,
        TodoError,
    >)
        requires
            store_wf(old(self)@),
        ensures
            store_wf(final(self)@),
            match r {
                Ok(t) => has_id(old(self)@, id@) && forall|j: int|
                    #![trigger old(self)@[j]]
                    0 <= j < old(self)@.len() && old(self)@[j].id == id@ ==> t@ == apply_update(
                        old(self)@[j],
                        body@,
                        now,
                    ) && final(self)@ == old(self)@.update(j, t@),
                Err(e) => e == TodoError::NotFound && !has_id(old(self)@, id@) && final(self)@
                    == old(self)@,
            },
    {
        let i: usize = match self.find_index(id) {
            Some(i) => i,
            None => {
                return Err(TodoError::NotFound);
            },
        };
        let cur = self.todos[i].clone();
        let new_title: String = match &body.title {
            Some(t) => if !t.as_str().is_empty() {
                t.clone()
            } else {
                cur.title.clone()
            },
            None => cur.title.clone(),
        };
        let new_content: String = match &body.content {
            Some(c) => if !c.as_str().is_empty() {
                c.clone()
            } else {
                cur.content.clone()
            },
            None => cur.content.clone(),
        };
        let new_completed: bool = match body.completed {
            Some(c) => c,
            None => cur.completed,
        };
        let new_updated: i64 = if now > cur.updated_at {
            now
        } else {
            cur.updated_at
        };
        let new_todo = Todo {
            id: cur.id,
            title: new_title,
            content: new_content,
            completed: new_completed,
            created_at: cur.created_at,
            updated_at: new_updated,
        };
        let out = new_todo.clone();
        let _replaced = self.todos.remove(i);
        self.todos.insert(i, new_todo);
        proof {
            let pre = old(self)@;
            assert(out@ == apply_update(pre[i as int], body@, now));
            assert(self@ =~= pre.update(i as int, out@));
            assert forall|j: int|
                0 <= j < pre.len() && pre[j].id == id@ implies out@ == apply_update(
                pre[j],
                body@,
                now,
            ) && self@ == pre.update(j, out@) by {
                if j != i as int {
                    assert(pre[j].id != pre[i as int].id);
                }
            }
            assert(ids_unique(self@)) by {
                assert forall|a: int, b: int|
                    0 <= a < self@.len() && 0 <= b < self@.len() && a != b implies self@[a].id
                    != self@[b].id by {
                    assert(self@[a].id == pre[a].id);
                    assert(self@[b].id == pre[b].id);
                }
            }
            assert(timestamps_wf(self@)) by {
                assert forall|a: int| 0 <= a < self@.len() implies self@[a].created_at
                    <= self@[a].updated_at by {
                    if a != i as int {
                        assert(self@[a] == pre[a]);
                    }
                }
            }
        }
        Ok(out)
    }

    /// Update the record carrying `id` at the current time: see
    /// `update_with` for how the supplied fields are folded in. Whatever the
    /// clock returned, the record keeps its `id` and `created_at`, and its
    /// `updated_at` never moves backwards.
    pub fn update(&mut self, id: &String, body: &UpdateTodoSchema) -> (r: Result<Todo, TodoError>)
        requires
            store_wf(old(self)@),
        ensures
            store_wf(final(self)@),
            match r {
                Ok(t) => has_id(old(self)@, id@) && forall|j: int|
                    0 <= j < old(self)@.len() && old(self)@[j].id == id@
                        ==> final(self)@ == old(self)@.update(j, t@)
                        && t@.id == old(self)@[j].id
                        && t@.created_at == old(self)@[j].created_at
                        && t@.updated_at >= old(self)@[j].updated_at
                        && t@.title == override_text(old(self)@[j].title, body@.title)
                        && t@.content == override_text(old(self)@[j].content, body@.content)
                        && t@.completed == (match body@.completed {
                        Some(c) => c,
                        None => old(self)@[j].completed,
                    }),
                Err(e) => e == TodoError::NotFound && !has_id(old(self)@, id@) && final(self)@
                    == old(self)@,
            },
    {
        let now = crate::clock::now_millis();
        let r = self.update_with(id, body, now);
        proof {
            if r is Ok {
                let t = r->Ok_0;
                assert forall|j: int|
                    0 <= j < old(self)@.len() && old(self)@[j].id == id@ implies self@ == old(
                    self,
                )@.update(j, t@) && t@.id == old(self)@[j].id && t@.created_at
                    == old(self)@[j].created_at && t@.updated_at >= old(self)@[j].updated_at
                    && t@.title == override_text(old(self)@[j].title, body@.title) && t@.content
                    == override_text(old(self)@[j].content, body@.content) && t@.completed == (
                match body@.completed {
                    Some(c) => c,
                    None => old(self)@[j].completed,
                }) by {
                    assert(t@ == apply_update(old(self)@[j], body@, now));
                }
            }
        }
        r
    }

    /// Remove the record carrying `id` and no other; afterwards no record
    /// carries that id. Fails with `NotFound`, changing nothing, exactly
    /// when no record carries it.
    pub fn delete(&mut self, id: &String) -> (r: Result<(), TodoError>)
        requires
            store_wf(old(self)@),
        ensures
            store_wf(final(self)@),
            titles_unique(old(self)@) ==> titles_unique(final(self)@),
            match r {
                Ok(_) => has_id(old(self)@, id@) && !has_id(final(self)@, id@) && forall|j: int|
                    0 <= j < old(self)@.len() && old(self)@[j].id == id@
                        ==> final(self)@ == old(self)@.remove(j),
                Err(e) => e == TodoError::NotFound && !has_id(old(self)@, id@) && final(self)@
                    == old(self)@,
            },
    {
        let i: usize = match self.find_index(id) {
            Some(i) => i,
            None => {
                return Err(TodoError::NotFound);
            },
        };
        let _removed = self.todos.remove(i);
        proof {
            let pre = old(self)@;
            assert(self@ =~= pre.remove(i as int));
            assert forall|j: int|
                0 <= j < pre.len() && pre[j].id == id@ implies self@ == pre.remove(j) by {
                if j != i as int {
                    assert(pre[j].id != pre[i as int].id);
                }
            }
            lemma_remove_erases_id(pre, i as int, id@);
            assert(ids_unique(self@)) by {
                assert forall|a: int, b: int|
                    0 <= a < self@.len() && 0 <= b < self@.len() && a != b implies self@[a].id
                    != self@[b].id by {
                    let a0 = if a < i as int {
                        a
                    } else {
                        a + 1
                    };
                    let b0 = if b < i as int {
                        b
                    } else {
                        b + 1
                    };
                    assert(self@[a].id == pre[a0].id);
                    assert(self@[b].id == pre[b0].id);
                }
            }
            assert(timestamps_wf(self@)) by {
                assert forall|a: int| 0 <= a < self@.len() implies self@[a].created_at
                    <= self@[a].updated_at by {
                    let a0 = if a < i as int {
                        a
                    } else {
                        a + 1
                    };
                    assert(self@[a] == pre[a0]);
                }
            }
            if titles_unique(pre) {
                assert forall|a: int, b: int|
                    0 <= a < self@.len() && 0 <= b < self@.len() && a != b implies self@[a].title
                    != self@[b].title by {
                    let a0 = if a < i as int {
                        a
                    } else {
                        a + 1
                    };
                    let b0 = if b < i as int {
                        b
                    } else {
                        b + 1
                    };
                    assert(self@[a].title == pre[a0].title);
                    assert(self@[b].title == pre[b0].title);
                }
            }
        }
        Ok(())
    }

    /// Whether some record already carries this id.
    pub fn contains_id(&self, id: &String) -> (r: bool)
        ensures
            r == has_id(self@, id@),
    {
        match self.find_index(id) {
            Some(_) => true,
            None => false,
        }
    }
}

/// After the record at position `i` — the one carrying `id` — is removed
/// from a collection whose ids are pairwise distinct, no record carries that
/// id any more: a get after a successful delete must fail with `NotFound`.
pub proof fn lemma_remove_erases_id(s: Seq<TodoView>, i: int, id: Seq<char>)
    requires
        ids_unique(s),
        0 <= i < s.len(),
        s[i].id == id,
    ensures
        !has_id(s.remove(i), id),
{
    let s2 = s.remove(i);
    assert forall|j: int| 0 <= j < s2.len() implies s2[j].id != id by {
        let j0 = if j < i {
            j
        } else {
            j + 1
        };
        assert(s2[j] == s[j0]);
        assert(s[j0].id != s[i].id);
    }
}

/// A successful update leaves a record's identity alone: its `id` and its
/// `created_at` are exactly what they were.
pub proof fn lemma_update_preserves_identity(t: TodoView, u: UpdateView, now: i64)
    ensures
        apply_update(t, u, now).id == t.id,
        apply_update(t, u, now).created_at == t.created_at,
{
}

/// A record's timestamps only move forward: if it was well formed
/// (`created_at <= updated_at`), the updated record is well formed too, and
/// its `updated_at` is no earlier than before — it advances to `now` when
/// the clock is ahead and stays put when it is not.
pub proof fn lemma_update_timestamps_monotonic(t: TodoView, u: UpdateView, now: i64)
    requires
        t.created_at <= t.updated_at,
    ensures
        apply_update(t, u, now).created_at <= apply_update(t, u, now).updated_at,
        apply_update(t, u, now).updated_at >= t.updated_at,
{
}

/// Appending a record whose title no existing record carries keeps titles
/// pairwise distinct: since create is the only operation that adds a record
/// and it refuses a taken title, no sequence of creates can ever make two
/// records share a title.
pub proof fn lemma_append_fresh_title_keeps_titles_unique(s: Seq<TodoView>, t: TodoView)
    requires
        titles_unique(s),
        !has_title(s, t.title),
    ensures
        titles_unique(s.push(t)),
{
    let s2 = s.push(t);
    assert forall|i: int, j: int|
        0 <= i < s2.len() && 0 <= j < s2.len() && i != j implies s2[i].title != s2[j].title by {
        if i < s.len() && j < s.len() {
            assert(s2[i] == s[i]);
            assert(s2[j] == s[j]);
        } else if i == s.len() {
            assert(s2[i] == t);
            assert(s2[j] == s[j]);
            assert(!(0 <= j < s.len() && s[j].title == t.title));
        } else {
            assert(s2[j] == t);
            assert(s2[i] == s[i]);
            assert(!(0 <= i < s.len() && s[i].title == t.title));
        }
    }
}

/// Appending a record whose id no existing record carries keeps ids
/// pairwise distinct: ids are never reused or duplicated.
pub proof fn lemma_append_fresh_id_keeps_ids_unique(s: Seq<TodoView>, t: TodoView)
    requires
        ids_unique(s),
        !has_id(s, t.id),
    ensures
        ids_unique(s.push(t)),
{
    let s2 = s.push(t);
    assert forall|i: int, j: int|
        0 <= i < s2.len() && 0 <= j < s2.len() && i != j implies s2[i].id != s2[j].id by {
        if i < s.len() && j < s.len() {
            assert(s2[i] == s[i]);
            assert(s2[j] == s[j]);
        } else if i == s.len() {
            assert(s2[i] == t);
            assert(s2[j] == s[j]);
            assert(!(0 <= j < s.len() && s[j].id == t.id));
        } else {
            assert(s2[j] == t);
            assert(s2[i] == s[i]);
            assert(!(0 <= i < s.len() && s[i].id == t.id));
        }
    }
}

} // verus!
