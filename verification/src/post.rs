//! The post record and the form a caller fills in for it.

use vstd::prelude::*;

verus! {

/// What a caller supplies for a post: every field but the identifier.
#[derive(Debug, PartialEq, Eq)]
pub struct PostForm {
    pub title: String,
    pub text: String,
}

/// The content of a [`PostForm`] as plain sequences of characters.
pub struct FormView {
    pub title: Seq<char>,
    pub text: Seq<char>,
}

/// A stored post: the identifier that storage assigned and the fields of its form.
#[derive(Debug, PartialEq, Eq)]
pub struct Post {
    pub id: i32,
    pub title: String,
    pub text: String,
}

/// The content of a [`Post`]: its identifier as an integer and its fields as
/// sequences of characters.
pub struct PostView {
    pub id: int,
    pub title: Seq<char>,
    pub text: Seq<char>,
}

impl FormView {
    /// The post that carries this form under the identifier `id`.
    pub open spec fn with_id(self, id: int) -> PostView {
        PostView { id, title: self.title, text: self.text }
    }
}

impl PostView {
    /// The form whose fields this post carries.
    pub open spec fn form(self) -> FormView {
        FormView { title: self.title, text: self.text }
    }
}

impl View for PostForm {
    type V = FormView;

    open spec fn view(&self) -> FormView {
        FormView { title: self.title@, text: self.text@ }
    }
}

impl View for Post {
    type V = PostView;

    open spec fn view(&self) -> PostView {
        PostView { id: self.id as int, title: self.title@, text: self.text@ }
    }
}

/// The contents of a sequence of posts, element by element.
pub open spec fn post_views(posts: Seq<Post>) -> Seq<PostView> {
    Seq::new(posts.len(), |i: int| posts[i]@)
}

impl Clone for PostForm {
    fn clone(&self) -> (copy: Self)
        ensures
            copy@ == self@,
    {
        PostForm { title: self.title.clone(), text: self.text.clone() }
    }
}

impl Clone for Post {
    fn clone(&self) -> (copy: Self)
        ensures
            copy@ == self@,
    {
        Post { id: self.id, title: self.title.clone(), text: self.text.clone() }
    }
}

impl PostForm {
    /// A form with the given title and text.
    pub fn new(title: &str, text: &str) -> (form: Self)
        ensures
            form@ == (FormView { title: title@, text: text@ }),
    {
        PostForm { title: title.to_owned(), text: text.to_owned() }
    }
}

impl Post {
    /// The post that carries `form` under the identifier `id`.
    pub fn from_form(id: i32, form: PostForm) -> (post: Self)
        ensures
            post@ == form@.with_id(id as int),
    {
        Post { id, title: form.title, text: form.text }
    }

    /// The form whose fields this post carries.
    pub fn form(&self) -> (form: PostForm)
        ensures
            form@ == self@.form(),
    {
        PostForm { title: self.title.clone(), text: self.text.clone() }
    }

    /// The same post, identifier unchanged, with every other field taken from `form`.
    pub fn with_form(&self, form: PostForm) -> (post: Self)
        ensures
            post@ == form@.with_id(self@.id),
    {
        Post { id: self.id, title: form.title, text: form.text }
    }
}

} // verus!
