use post_service::dispatch::{
    create_post, created, delete_post, deleted, greet, list_posts, listed, resolve, success,
    update_post, updated, AppState, FlashData,
};
use post_service::error::PostError;
use post_service::pagination::Params;
use post_service::post::{Post, PostForm};
use post_service::startup::{Startup, StartupError};
use post_service::store::PostStore;

fn titled(title: &str) -> PostForm {
    PostForm::new(title, "")
}

fn empty_state() -> AppState {
    AppState::open(Startup::Ready, PostStore::new()).unwrap()
}

fn flash(message: &str) -> FlashData {
    FlashData { kind: "success".to_string(), message: message.to_string() }
}

#[test]
fn two_posts_listed_one_to_a_page() {
    let mut state = empty_state();
    assert!(create_post(&mut state, titled("A")).is_ok());
    assert!(create_post(&mut state, titled("B")).is_ok());

    let first = list_posts(&state, Params::new(Some(1), Some(1))).unwrap();
    assert_eq!(first.len(), 1);
    assert_eq!(first[0].title, "A");
    let (_, pages) = state.store().list(1, 1);
    assert_eq!(pages, 2);

    let second = list_posts(&state, Params::new(Some(2), Some(1))).unwrap();
    assert_eq!(second.len(), 1);
    assert_eq!(second[0].title, "B");
}

#[test]
fn updated_post_is_listed_with_new_title_and_old_identifier() {
    let mut state = empty_state();
    create_post(&mut state, titled("A")).unwrap();
    create_post(&mut state, titled("B")).unwrap();
    let before = list_posts(&state, Params::default()).unwrap();
    let existing = before[1].id;
    assert_eq!(existing, 2);

    let reply = update_post(&mut state, existing, titled("C"));
    assert_eq!(reply, Ok(flash("Post succcessfully updated")));

    let after = list_posts(&state, Params::default()).unwrap();
    assert_eq!(after.len(), 2);
    assert_eq!(after[1].id, existing);
    assert_eq!(after[1].title, "C");
    assert_eq!(after[0], before[0]);
}

#[test]
fn listing_without_parameters_is_page_one_of_five() {
    let mut state = empty_state();
    for n in 1..=12 {
        create_post(&mut state, titled(&format!("post {}", n))).unwrap();
    }
    let defaulted = list_posts(&state, Params::default()).unwrap();
    let named = list_posts(&state, Params::new(Some(1), Some(5))).unwrap();
    assert_eq!(defaulted, named);
    assert_eq!(defaulted.len(), 5);
    assert_eq!(defaulted[0].id, 1);
    assert_eq!(defaulted[4].id, 5);

    let page_only = list_posts(&state, Params::new(Some(3), None)).unwrap();
    assert_eq!(page_only, list_posts(&state, Params::new(Some(3), Some(5))).unwrap());
    assert_eq!(page_only.len(), 2);
    let size_only = list_posts(&state, Params::new(None, Some(7))).unwrap();
    assert_eq!(size_only, list_posts(&state, Params::new(Some(1), Some(7))).unwrap());
    assert_eq!(size_only.len(), 7);
}

#[test]
fn listing_an_empty_table_is_empty() {
    let state = empty_state();
    assert_eq!(list_posts(&state, Params::default()), Ok(Vec::new()));
    assert_eq!(list_posts(&state, Params::new(Some(9), Some(3))), Ok(Vec::new()));
}

#[test]
fn listing_beyond_the_last_page_is_empty_and_no_error() {
    let mut state = empty_state();
    create_post(&mut state, titled("A")).unwrap();
    assert_eq!(list_posts(&state, Params::new(Some(2), None)), Ok(Vec::new()));
    assert_eq!(list_posts(&state, Params::new(Some(u64::MAX), Some(u64::MAX))), Ok(Vec::new()));
    assert_eq!(list_posts(&state, Params::new(Some(0), None)), Ok(Vec::new()));
}

#[test]
fn page_size_of_zero_is_refused() {
    let mut state = empty_state();
    create_post(&mut state, titled("A")).unwrap();
    assert_eq!(list_posts(&state, Params::new(None, Some(0))), Err(PostError::InvalidPageSize));
    assert_eq!(list_posts(&state, Params::new(Some(1), Some(0))), Err(PostError::InvalidPageSize));
    assert_eq!(resolve(Params::new(Some(4), Some(0))), Err(PostError::InvalidPageSize));
}

#[test]
fn resolve_fills_in_the_defaults() {
    assert_eq!(resolve(Params::default()), Ok((1, 5)));
    assert_eq!(resolve(Params::new(Some(3), None)), Ok((3, 5)));
    assert_eq!(resolve(Params::new(None, Some(9))), Ok((1, 9)));
    assert_eq!(resolve(Params::new(Some(0), Some(2))), Ok((0, 2)));
}

#[test]
fn every_change_answers_with_the_success_envelope() {
    let mut state = empty_state();
    assert_eq!(create_post(&mut state, titled("A")), Ok(flash("Post succcessfully added")));
    assert_eq!(update_post(&mut state, 1, titled("B")), Ok(flash("Post succcessfully updated")));
    assert_eq!(delete_post(&mut state, 1), Ok(flash("Post succcessfully deleted")));
    assert_eq!(state.store().len(), 0);
}

#[test]
fn commands_on_an_unknown_identifier_are_not_found() {
    let mut state = empty_state();
    create_post(&mut state, titled("A")).unwrap();
    assert_eq!(update_post(&mut state, 2, titled("B")), Err(PostError::NotFound));
    assert_eq!(delete_post(&mut state, 2), Err(PostError::NotFound));
    assert_eq!(delete_post(&mut state, 1).unwrap().kind, "success");
    assert_eq!(delete_post(&mut state, 1), Err(PostError::NotFound));
    assert_eq!(update_post(&mut state, 1, titled("B")), Err(PostError::NotFound));
}

#[test]
fn create_command_reports_exhausted_identifiers() {
    let full = PostStore::restore(Vec::new(), i32::MAX).unwrap();
    let mut state = AppState::open(Startup::Ready, full).unwrap();
    assert_eq!(create_post(&mut state, titled("A")), Err(PostError::ConstraintViolation));
    assert_eq!(list_posts(&state, Params::default()), Ok(Vec::new()));
}

#[test]
fn replies_pass_storage_errors_on() {
    let errors = [
        PostError::NotFound,
        PostError::ConstraintViolation,
        PostError::StorageUnavailable,
        PostError::InvalidPageSize,
    ];
    for error in errors {
        assert_eq!(created(Err(error)), Err(error));
        assert_eq!(updated(Err(error)), Err(error));
        assert_eq!(deleted(Err(error)), Err(error));
        assert_eq!(listed(Err(error)), Err(error));
    }
}

#[test]
fn replies_to_what_storage_did() {
    let post = Post::from_form(3, titled("A"));
    assert_eq!(created(Ok(post.clone())), Ok(flash("Post succcessfully added")));
    assert_eq!(updated(Ok(post.clone())), Ok(flash("Post succcessfully updated")));
    assert_eq!(deleted(Ok(())), Ok(flash("Post succcessfully deleted")));
    assert_eq!(listed(Ok((vec![post.clone()], 4))), Ok(vec![post]));
    assert_eq!(listed(Ok((Vec::new(), 0))), Ok(Vec::new()));
}

#[test]
fn success_envelope_has_kind_and_message() {
    let envelope = success("done");
    assert_eq!(envelope.kind, "success");
    assert_eq!(envelope.message, "done");
    assert_eq!(envelope.clone(), envelope);
}

#[test]
fn greeting_names_its_guest() {
    assert_eq!(greet("world"), "Hello, world! You've been greeted from Rust!");
    assert_eq!(greet(""), "Hello, ! You've been greeted from Rust!");
}

#[test]
fn state_opens_only_when_startup_is_ready() {
    let not_ready = [
        Startup::ResolvingHome,
        Startup::PreparingDirectory,
        Startup::Connecting,
        Startup::Migrating,
        Startup::Failed(StartupError::NoHomeDirectory),
        Startup::Failed(StartupError::Migration),
    ];
    for startup in not_ready {
        assert!(AppState::open(startup, PostStore::new()).is_none());
    }
    let mut startup = Startup::begin();
    for _ in 0..4 {
        startup = startup.advance(true);
    }
    let rows = vec![Post::from_form(4, titled("kept"))];
    let state = AppState::open(startup, PostStore::restore(rows, 6).unwrap()).unwrap();
    assert_eq!(state.store().len(), 1);
    assert_eq!(state.store().last_id(), 6);
    assert_eq!(list_posts(&state, Params::default()).unwrap()[0].title, "kept");
}
