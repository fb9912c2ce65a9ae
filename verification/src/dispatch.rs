//! The commands that a front end can invoke: create, update, delete and list
//! posts, each against the state that the process holds.
//!
//! A command that changes the table answers with the same envelope whatever it
//! changed: the kind `success` and a message. A command that storage refuses
//! answers with storage's error and leaves the table as it was.

use crate::error::PostError;
use crate::pagination::Params;
use crate::post::{post_views, Post, PostForm, PostView};
use crate::startup::Startup;
use crate::store::PostStore;
use crate::table::TableView;
use vstd::prelude::*;

verus! {

/// The answer to a command that changed the table.
#[derive(Debug, PartialEq, Eq)]
pub struct FlashData {
    pub kind: String,
    pub message: String,
}

/// The content of a [`FlashData`].
pub struct FlashView {
    pub kind: Seq<char>,
    pub message: Seq<char>,
}

impl View for FlashData {
    type V = FlashView;

    open spec fn view(&self) -> FlashView {
        FlashView { kind: self.kind@, message: self.message@ }
    }
}

impl Clone for FlashData {
    fn clone(&self) -> (copy: Self)
        ensures
            copy@ == self@,
    {
        FlashData { kind: self.kind.clone(), message: self.message.clone() }
    }
}

/// The envelope of a change that was made, with its message.
pub open spec fn success_flash(message: Seq<char>) -> FlashView {
    FlashView { kind: "success"@, message }
}

/// The message that answers a create.
pub open spec fn created_message() -> Seq<char> {
    "Post succcessfully added"@
}

/// The message that answers an update.
pub open spec fn updated_message() -> Seq<char> {
    "Post succcessfully updated"@
}

/// The message that answers a delete.
pub open spec fn deleted_message() -> Seq<char> {
    "Post succcessfully deleted"@
}

/// The answer to a changing command, given what storage returned: the success
/// envelope with `message` where storage made the change, else storage's error.
pub open spec fn change_reply<T>(outcome: Result<T, PostError>, message: Seq<char>) -> Result<
    FlashView,
    PostError,
> {
    match outcome {
        Ok(_) => Ok(success_flash(message)),
        Err(error) => Err(error),
    }
}

/// The page and the page size that a listing request asks storage for, with the
/// defaults filled in; a page size of zero is refused.
pub open spec fn page_request(params: Params) -> Result<(u64, u64), PostError> {
    if params.effective_posts_per_page() == 0 {
        Err(PostError::InvalidPageSize)
    } else {
        Ok((params.effective_page(), params.effective_posts_per_page()))
    }
}

/// The answer to a listing request on the table `table`: the rows of the page
/// asked for, without the page count.
pub open spec fn list_reply(table: TableView, params: Params) -> Result<Seq<PostView>, PostError> {
    match page_request(params) {
        Ok(request) => Ok(table.page(request.0 as int, request.1 as int)),
        Err(error) => Err(error),
    }
}

/// An answer that carries an envelope, with the envelope as its content.
pub open spec fn flash_view(reply: Result<FlashData, PostError>) -> Result<FlashView, PostError> {
    match reply {
        Ok(flash) => Ok(flash@),
        Err(error) => Err(error),
    }
}

/// An answer that carries posts, with the posts as their contents.
pub open spec fn posts_view(reply: Result<Vec<Post>, PostError>) -> Result<
    Seq<PostView>,
    PostError,
> {
    match reply {
        Ok(posts) => Ok(post_views(posts@)),
        Err(error) => Err(error),
    }
}

/// The success envelope with the given message.
pub fn success(message: &str) -> (flash: FlashData)
    ensures
        flash@ == success_flash(message@),
{
    FlashData { kind: "success".to_owned(), message: message.to_owned() }
}

/// Answers a create, given what storage returned for it.
pub fn created(outcome: Result<Post, PostError>) -> (reply: Result<FlashData, PostError>)
    ensures
        flash_view(reply) == change_reply(outcome, created_message()),
{
    match outcome {
        Ok(_) => Ok(success("Post succcessfully added")),
        Err(error) => Err(error),
    }
}

/// Answers an update, given what storage returned for it.
pub fn updated(outcome: Result<Post, PostError>) -> (reply: Result<FlashData, PostError>)
    ensures
        flash_view(reply) == change_reply(outcome, updated_message()),
{
    match outcome {
        Ok(_) => Ok(success("Post succcessfully updated")),
        Err(error) => Err(error),
    }
}

/// Answers a delete, given what storage returned for it.
pub fn deleted(outcome: Result<(), PostError>) -> (reply: Result<FlashData, PostError>)
    ensures
        flash_view(reply) == change_reply(outcome, deleted_message()),
{
    match outcome {
        Ok(_) => Ok(success("Post succcessfully deleted")),
        Err(error) => Err(error),
    }
}

/// Answers a listing request, given what storage returned for it: the rows of
/// the page. The page count that storage computed is not passed on.
pub fn listed(outcome: Result<(Vec<Post>, u64), PostError>) -> (reply: Result<
    Vec<Post>,
    PostError,
>)
    ensures
        match outcome {
            Ok(listing) => reply == Ok::<Vec<Post>, PostError>(listing.0),
            Err(error) => reply == Err::<Vec<Post>, PostError>(error),
        },
{
    match outcome {
        Ok(listing) => Ok(listing.0),
        Err(error) => Err(error),
    }
}

/// Fills in the defaults of a listing request and refuses a page size of zero.
pub fn resolve(params: Params) -> (request: Result<(u64, u64), PostError>)
    ensures
        request == page_request(params),
{
    let page: u64 = params.page_or_default();
    let posts_per_page: u64 = params.posts_per_page_or_default();
    if posts_per_page == 0 {
        Err(PostError::InvalidPageSize)
    } else {
        Ok((page, posts_per_page))
    }
}

/// What the process holds for its commands: the post table. It is made once,
/// when startup is through, and handed to every command.
pub struct AppState {
    store: PostStore,
}

impl View for AppState {
    type V = TableView;

    closed spec fn view(&self) -> TableView {
        self.store@
    }
}

impl AppState {
    /// The state that holds `store`, given where startup stands: there is one
    /// only when startup has reached readiness, so that no command runs before
    /// the schema is in place.
    pub fn open(startup: Startup, store: PostStore) -> (state: Option<Self>)
        ensures
            state is Some <==> startup == Startup::Ready,
            state matches Some(ready) ==> ready@ == store@,
    {
        if startup.accepts_commands() {
            Some(AppState { store })
        } else {
            None
        }
    }

    /// The post table.
    pub fn store(&self) -> (store: &PostStore)
        ensures
            store@ == self@,
    {
        &self.store
    }
}

/// Adds a post with the fields of `form`.
pub fn create_post(state: &mut AppState, form: PostForm) -> (reply: Result<FlashData, PostError>)
    ensures
        flash_view(reply) == change_reply(old(state)@.create_outcome(form@), created_message()),
        final(state)@ == old(state)@.after_create(form@),
        final(state)@.wf(),
{
    created(state.store.create(form))
}

/// Gives the post `id` the fields of `form`.
pub fn update_post(state: &mut AppState, id: i32, form: PostForm) -> (reply: Result<
    FlashData,
    PostError,
>)
    ensures
        flash_view(reply) == change_reply(
            old(state)@.update_outcome(id as int, form@),
            updated_message(),
        ),
        final(state)@ == old(state)@.after_update(id as int, form@),
        final(state)@.wf(),
{
    updated(state.store.update(id, form))
}

/// Deletes the post `id`.
pub fn delete_post(state: &mut AppState, id: i32) -> (reply: Result<FlashData, PostError>)
    ensures
        flash_view(reply) == change_reply(old(state)@.delete_outcome(id as int), deleted_message()),
        final(state)@ == old(state)@.after_delete(id as int),
        final(state)@.wf(),
{
    deleted(state.store.delete(id))
}

/// Lists the posts of one page. An absent page is the first, an absent page
/// size is five.
pub fn list_posts(state: &AppState, params: Params) -> (reply: Result<Vec<Post>, PostError>)
    ensures
        posts_view(reply) == list_reply(state@, params),
        reply matches Ok(posts) ==> posts@.len() <= params.effective_posts_per_page(),
{
    match resolve(params) {
        Ok(request) => listed(Ok(state.store.list(request.0, request.1))),
        Err(error) => Err(error),
    }
}

/// Greets `name`.
pub fn greet(name: &str) -> (greeting: String)
    ensures
        greeting@ == "Hello, "@ + name@ + "! You've been greeted from Rust!"@,
{
    let mut greeting: String = "Hello, ".to_owned();
    greeting.append(name);
    greeting.append("! You've been greeted from Rust!");
    greeting
}

} // verus!
