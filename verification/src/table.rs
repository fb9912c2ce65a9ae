//! The post table as a mathematical value: its rows in the order of their
//! identifiers, what each request returns on it, and how each changes it.
//!
//! Storage assigns identifiers itself, counting up from 1, and never hands one
//! out twice: a deleted row's identifier stays retired. Because identifiers only
//! grow, the order of the identifiers is also the order of insertion.

use crate::error::PostError;
use crate::pagination::{page_count, page_of};
use crate::post::{FormView, PostView};
use vstd::prelude::*;

verus! {

/// The content of a post table: its rows in order, and the last identifier
/// that was assigned.
pub struct TableView {
    pub rows: Seq<PostView>,
    pub last_id: int,
}

impl TableView {
    /// The table that holds no row and has assigned no identifier.
    pub open spec fn empty() -> TableView {
        TableView { rows: Seq::empty(), last_id: 0 }
    }

    /// What holds of every table: identifiers are positive, none is larger than
    /// the last one assigned, and the rows stand in strictly ascending order of
    /// their identifiers, so that no two rows share one.
    pub open spec fn wf(self) -> bool {
        &&& 0 <= self.last_id <= i32::MAX
        &&& forall|i: int|
            0 <= i < self.rows.len() ==> 1 <= (#[trigger] self.rows[i]).id <= self.last_id
        &&& forall|i: int, j: int|
            0 <= i < j < self.rows.len() ==> (#[trigger] self.rows[i]).id < (
            #[trigger] self.rows[j]).id
    }

    /// Whether a row carries the identifier `id`.
    pub open spec fn has_id(self, id: int) -> bool {
        exists|i: int| 0 <= i < self.rows.len() && (#[trigger] self.rows[i]).id == id
    }

    /// The index of the row that carries `id`, where there is one.
    pub open spec fn position(self, id: int) -> int {
        choose|i: int| 0 <= i < self.rows.len() && (#[trigger] self.rows[i]).id == id
    }

    /// The row that carries `id`, where there is one.
    pub open spec fn row(self, id: int) -> PostView {
        self.rows[self.position(id)]
    }

    /// Whether an identifier is left for one more row.
    pub open spec fn has_room(self) -> bool {
        self.last_id < i32::MAX
    }

    /// The identifier that the next new row gets.
    pub open spec fn next_id(self) -> int {
        self.last_id + 1
    }

    /// What a request to add a row with the fields of `form` returns: the row
    /// under the next identifier, or a constraint violation when none is left.
    pub open spec fn create_outcome(self, form: FormView) -> Result<PostView, PostError> {
        if self.has_room() {
            Ok(form.with_id(self.next_id()))
        } else {
            Err(PostError::ConstraintViolation)
        }
    }

    /// The table after a request to add a row with the fields of `form`: the
    /// row stands at its end, or nothing has changed when no identifier is left.
    pub open spec fn after_create(self, form: FormView) -> TableView {
        if self.has_room() {
            TableView {
                rows: self.rows.push(form.with_id(self.next_id())),
                last_id: self.next_id(),
            }
        } else {
            self
        }
    }

    /// What a request to give the row `id` the fields of `form` returns: the row
    /// as it then stands, or not found when no row carries `id`.
    pub open spec fn update_outcome(self, id: int, form: FormView) -> Result<PostView, PostError> {
        if self.has_id(id) {
            Ok(form.with_id(id))
        } else {
            Err(PostError::NotFound)
        }
    }

    /// The table after a request to give the row `id` the fields of `form`: the
    /// row has them, in its old place, or nothing has changed when no row
    /// carries `id`.
    pub open spec fn after_update(self, id: int, form: FormView) -> TableView {
        if self.has_id(id) {
            TableView { rows: self.rows.update(self.position(id), form.with_id(id)), ..self }
        } else {
            self
        }
    }

    /// What a request to delete the row `id` returns: nothing, or not found
    /// when no row carries `id`.
    pub open spec fn delete_outcome(self, id: int) -> Result<(), PostError> {
        if self.has_id(id) {
            Ok(())
        } else {
            Err(PostError::NotFound)
        }
    }

    /// The table after a request to delete the row `id`: the row is gone and the
    /// others keep their order, or nothing has changed when no row carries `id`.
    pub open spec fn after_delete(self, id: int) -> TableView {
        if self.has_id(id) {
            TableView { rows: self.rows.remove(self.position(id)), ..self }
        } else {
            self
        }
    }

    /// The rows of page `page`.
    pub open spec fn page(self, page: int, page_size: int) -> Seq<PostView> {
        page_of(self.rows, page, page_size)
    }

    /// The number of pages that the rows fill.
    pub open spec fn pages(self, page_size: int) -> int {
        page_count(self.rows.len() as int, page_size)
    }
}

/// Where the row at index `i` stood before the row at index `gone` was taken
/// out of the table.
spec fn index_before(i: int, gone: int) -> int {
    if i < gone {
        i
    } else {
        i + 1
    }
}

impl TableView {
    /// An identifier names its row: the row at index `i` is the one, and the
    /// only one, that carries its identifier.
    pub proof fn lemma_position(self, i: int)
        requires
            self.wf(),
            0 <= i < self.rows.len(),
        ensures
            self.has_id(self.rows[i].id),
            self.position(self.rows[i].id) == i,
    {
        let id = self.rows[i].id;
        let p = self.position(id);
        assert(0 <= p < self.rows.len() && self.rows[p].id == id);
        if p < i {
            assert(self.rows[p].id < self.rows[i].id);
        } else if i < p {
            assert(self.rows[i].id < self.rows[p].id);
        }
    }

    /// An identifier that a row carries was assigned, and its row is found.
    pub proof fn lemma_row(self, id: int)
        requires
            self.wf(),
            self.has_id(id),
        ensures
            1 <= id <= self.last_id,
            0 <= self.position(id) < self.rows.len(),
            self.row(id).id == id,
    {
        let p = self.position(id);
        assert(0 <= p < self.rows.len() && self.rows[p].id == id);
    }

    /// A new row gets an identifier that no row carries, stands last, and
    /// leaves every other row as it was.
    pub proof fn lemma_create(self, form: FormView)
        requires
            self.wf(),
            self.has_room(),
        ensures
            !self.has_id(self.next_id()),
            self.after_create(form).wf(),
            self.after_create(form).rows.len() == self.rows.len() + 1,
            self.after_create(form).has_id(self.next_id()),
            self.after_create(form).position(self.next_id()) == self.rows.len(),
            self.after_create(form).row(self.next_id()) == form.with_id(self.next_id()),
            forall|other: int| #[trigger]
                self.has_id(other) ==> self.after_create(form).has_id(other)
                    && self.after_create(form).row(other) == self.row(other),
    {
        let after = self.after_create(form);
        let last = self.rows.len() as int;
        assert(after.rows[last] == form.with_id(self.next_id()));
        after.lemma_position(last);
        assert forall|other: int| #[trigger] self.has_id(other) implies after.has_id(other)
            && after.row(other) == self.row(other) by {
            self.lemma_row(other);
            let p = self.position(other);
            assert(after.rows[p] == self.rows[p]);
            after.lemma_position(p);
        }
    }

    /// An update changes the fields of its row and nothing else: the same
    /// identifiers stay in the same places, and every other row is as it was.
    pub proof fn lemma_update(self, id: int, form: FormView)
        requires
            self.wf(),
            self.has_id(id),
        ensures
            self.after_update(id, form).wf(),
            self.after_update(id, form).rows.len() == self.rows.len(),
            self.after_update(id, form).last_id == self.last_id,
            self.after_update(id, form).row(id) == form.with_id(id),
            forall|other: int| #[trigger]
                self.after_update(id, form).has_id(other) == self.has_id(other),
            forall|other: int| #[trigger]
                self.has_id(other) ==> self.after_update(id, form).position(other)
                    == self.position(other),
            forall|other: int|
                other != id && #[trigger] self.has_id(other) ==> self.after_update(id, form).row(
                    other,
                ) == self.row(other),
    {
        let after = self.after_update(id, form);
        self.lemma_row(id);
        assert forall|i: int| 0 <= i < self.rows.len() implies (#[trigger] after.rows[i]).id
            == self.rows[i].id by {}
        assert forall|other: int| #[trigger] self.has_id(other) implies after.has_id(other)
            && after.position(other) == self.position(other) by {
            self.lemma_row(other);
            let p = self.position(other);
            assert(after.rows[p].id == other);
            after.lemma_position(p);
        }
        assert forall|other: int| #[trigger] after.has_id(other) implies self.has_id(other) by {
            after.lemma_row(other);
            let p = after.position(other);
            assert(self.rows[p].id == other);
        }
    }

    /// A delete takes out its row and nothing else: the identifier is gone, and
    /// every other row is as it was.
    pub proof fn lemma_delete(self, id: int)
        requires
            self.wf(),
            self.has_id(id),
        ensures
            self.after_delete(id).wf(),
            self.after_delete(id).rows.len() == self.rows.len() - 1,
            self.after_delete(id).last_id == self.last_id,
            !self.after_delete(id).has_id(id),
            forall|other: int|
                other != id ==> #[trigger] self.after_delete(id).has_id(other) == self.has_id(
                    other,
                ),
            forall|other: int|
                other != id && #[trigger] self.has_id(other) ==> self.after_delete(id).row(other)
                    == self.row(other),
    {
        let after = self.after_delete(id);
        let gone = self.position(id);
        self.lemma_row(id);
        assert forall|i: int| 0 <= i < after.rows.len() implies #[trigger] after.rows[i]
            == self.rows[index_before(i, gone)] by {}
        assert forall|i: int, j: int| 0 <= i < j < after.rows.len() implies (
        #[trigger] after.rows[i]).id < (#[trigger] after.rows[j]).id by {
            assert(self.rows[index_before(i, gone)].id < self.rows[index_before(j, gone)].id);
        }
        if after.has_id(id) {
            after.lemma_row(id);
            self.lemma_position(index_before(after.position(id), gone));
        }
        assert forall|other: int| other != id && #[trigger] self.has_id(other) implies after.has_id(
            other,
        ) && after.row(other) == self.row(other) by {
            self.lemma_row(other);
            let p = self.position(other);
            let q = if p < gone {
                p
            } else {
                p - 1
            };
            assert(after.rows[q] == self.rows[p]);
            after.lemma_position(q);
        }
        assert forall|other: int| other != id && #[trigger] after.has_id(other) implies self.has_id(
            other,
        ) by {
            after.lemma_row(other);
            let q = after.position(other);
            assert(self.rows[index_before(q, gone)].id == other);
        }
    }
}

} // verus!
