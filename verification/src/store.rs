//! The post table held in memory, and the four operations that storage
//! offers on it: create, update, delete and list.

use crate::error::PostError;
use crate::pagination::{count_pages, page_bounds};
use crate::post::{post_views, Post, PostForm, PostView};
use crate::table::TableView;
use vstd::prelude::*;

verus! {

/// What a request that returns a post returned, with the post as its content.
pub open spec fn outcome_view(outcome: Result<Post, PostError>) -> Result<PostView, PostError> {
    match outcome {
        Ok(post) => Ok(post@),
        Err(error) => Err(error),
    }
}

/// A post table held in memory.
pub struct PostStore {
    rows: Vec<Post>,
    last_id: i32,
}

impl View for PostStore {
    type V = TableView;

    closed spec fn view(&self) -> TableView {
        TableView { rows: post_views(self.rows@), last_id: self.last_id as int }
    }
}

impl PostStore {
    #[verifier::type_invariant]
    spec fn inv(self) -> bool {
        self@.wf()
    }

    /// An empty table.
    pub fn new() -> (store: Self)
        ensures
            store@ == TableView::empty(),
            store@.wf(),
    {
        let store = PostStore { rows: Vec::new(), last_id: 0 };
        assert(store@.rows =~= Seq::empty());
        store
    }

    /// The table that holds `rows` and has `last_id` as the last identifier
    /// assigned, where that is a table: every identifier is at least 1 and at
    /// most `last_id`, and the rows stand in strictly ascending order of their
    /// identifiers. `None` where it is not.
    pub fn restore(rows: Vec<Post>, last_id: i32) -> (restored: Option<Self>)
        ensures
            match restored {
                Some(store) => {
                    &&& store@ == (TableView { rows: post_views(rows@), last_id: last_id as int })
                    &&& store@.wf()
                },
                None => !(TableView { rows: post_views(rows@), last_id: last_id as int }).wf(),
            },
    {
        let ghost table = TableView { rows: post_views(rows@), last_id: last_id as int };
        if last_id < 0 {
            return None;
        }
        let mut i: usize = 0;
        while i < rows.len()
            invariant
                i <= rows.len(),
                0 <= last_id,
                table == (TableView { rows: post_views(rows@), last_id: last_id as int }),
                forall|k: int| 0 <= k < i ==> 1 <= (#[trigger] table.rows[k]).id <= last_id,
                forall|k: int, l: int|
                    0 <= k < l < i ==> (#[trigger] table.rows[k]).id < (
                    #[trigger] table.rows[l]).id,
            decreases rows.len() - i,
        {
            let id: i32 = rows[i].id;
            assert(table.rows[i as int].id == id);
            if id < 1 || id > last_id {
                return None;
            }
            if i > 0 {
                let before: i32 = rows[i - 1].id;
                assert(table.rows[i - 1].id == before);
                if before >= id {
                    return None;
                }
            }
            i += 1;
        }
        Some(PostStore { rows, last_id })
    }

    /// The number of rows.
    pub fn len(&self) -> (len: usize)
        ensures
            len == self@.rows.len(),
            self@.wf(),
    {
        proof {
            use_type_invariant(self);
        }
        self.rows.len()
    }

    /// The last identifier that was assigned; 0 where none was.
    pub fn last_id(&self) -> (last_id: i32)
        ensures
            last_id == self@.last_id,
            self@.wf(),
    {
        proof {
            use_type_invariant(self);
        }
        self.last_id
    }

    /// Index of the row that carries `id`.
    fn find(&self, id: i32) -> (found: Option<usize>)
        ensures
            self@.wf(),
            match found {
                Some(i) => self@.has_id(id as int) && i == self@.position(id as int) && i
                    < self.rows.len(),
                None => !self@.has_id(id as int),
            },
    {
        proof {
            use_type_invariant(self);
        }
        let mut i: usize = 0;
        while i < self.rows.len()
            invariant
                i <= self.rows.len(),
                self@.wf(),
                forall|k: int| 0 <= k < i ==> (#[trigger] self@.rows[k]).id != id,
            decreases self.rows.len() - i,
        {
            if self.rows[i].id == id {
                assert(self@.rows[i as int].id == id);
                return Some(i);
            }
            i += 1;
        }
        None
    }

    /// Adds a row with the fields of `form` and returns it with the identifier
    /// it was given.
    ///
    /// Fails with [`PostError::ConstraintViolation`], and changes nothing, when
    /// every identifier has been assigned.
    pub fn create(&mut self, form: PostForm) -> (created: Result<Post, PostError>)
        ensures
            final(self)@.wf(),
            outcome_view(created) == old(self)@.create_outcome(form@),
            final(self)@ == old(self)@.after_create(form@),
    {
        proof {
            use_type_invariant(&*self);
        }
        if self.last_id == i32::MAX {
            return Err(PostError::ConstraintViolation);
        }
        let id: i32 = self.last_id + 1;
        let stored = Post::from_form(id, form.clone());
        let mut rows: Vec<Post> = Vec::new();
        std::mem::swap(&mut rows, &mut self.rows);
        rows.push(stored);
        assert(post_views(rows@) =~= old(self)@.rows.push(form@.with_id(id as int)));
        self.last_id = id;
        self.rows = rows;
        Ok(Post::from_form(id, form))
    }

    /// Gives the row that carries `id` the fields of `form` and returns the row
    /// as it then stands. Its identifier and its place in the table stay.
    ///
    /// Fails with [`PostError::NotFound`], and changes nothing, when no row
    /// carries `id`.
    pub fn update(&mut self, id: i32, form: PostForm) -> (updated: Result<Post, PostError>)
        ensures
            final(self)@.wf(),
            outcome_view(updated) == old(self)@.update_outcome(id as int, form@),
            final(self)@ == old(self)@.after_update(id as int, form@),
    {
        match self.find(id) {
            None => Err(PostError::NotFound),
            Some(i) => {
                let stored = Post::from_form(id, form.clone());
                let mut rows: Vec<Post> = Vec::new();
                std::mem::swap(&mut rows, &mut self.rows);
                rows.set(i, stored);
                assert(post_views(rows@) =~= old(self)@.rows.update(
                    i as int,
                    form@.with_id(id as int),
                ));
                self.rows = rows;
                Ok(Post::from_form(id, form))
            },
        }
    }

    /// Takes out the row that carries `id`. The other rows keep their order.
    ///
    /// Fails with [`PostError::NotFound`], and changes nothing, when no row
    /// carries `id`.
    pub fn delete(&mut self, id: i32) -> (deleted: Result<(), PostError>)
        ensures
            final(self)@.wf(),
            deleted == old(self)@.delete_outcome(id as int),
            final(self)@ == old(self)@.after_delete(id as int),
    {
        match self.find(id) {
            None => Err(PostError::NotFound),
            Some(i) => {
                let mut rows: Vec<Post> = Vec::new();
                std::mem::swap(&mut rows, &mut self.rows);
                let _ = rows.remove(i);
                assert(post_views(rows@) =~= old(self)@.rows.remove(i as int));
                self.rows = rows;
                Ok(())
            },
        }
    }

    /// The rows of page `page`, in the order of the table, and the number of
    /// pages that the table fills. Pages are numbered from 1; a page that the
    /// table does not reach is empty.
    pub fn list(&self, page: u64, page_size: u64) -> (listing: (Vec<Post>, u64))
        requires
            page_size > 0,
        ensures
            self@.wf(),
            post_views(listing.0@) == self@.page(page as int, page_size as int),
            listing.1 == self@.pages(page_size as int),
            listing.0@.len() == self@.page(page as int, page_size as int).len(),
            listing.0@.len() <= page_size,
    {
        proof {
            use_type_invariant(self);
        }
        let total: usize = self.rows.len();
        let bounds = page_bounds(total, page, page_size);
        let start: usize = bounds.0;
        let end: usize = bounds.1;
        let mut items: Vec<Post> = Vec::new();
        let mut i: usize = start;
        while i < end
            invariant
                start <= i <= end <= self.rows.len(),
                items@.len() == i - start,
                forall|k: int|
                    0 <= k < items@.len() ==> (#[trigger] items@[k])@ == self.rows@[start + k]@,
            decreases end - i,
        {
            items.push(self.rows[i].clone());
            i += 1;
        }
        assert(post_views(items@) =~= self@.page(page as int, page_size as int));
        (items, count_pages(total as u64, page_size))
    }
}

} // verus!
