//! Post persistence and pagination: the rules of a small service that creates,
//! updates, deletes and pages through posts, with their proofs.
//!
//! - [`post`]: the post and the form that a caller fills in for it.
//! - [`error`]: why a request fails.
//! - [`pagination`]: the parameters of a listing, the page count, the rows of
//!   a page.
//! - [`table`]: the post table as a mathematical value, and what each request
//!   returns on it and makes of it.
//! - [`store`]: the post table held in memory, with the four operations of
//!   storage, each proved against [`table`].
//! - [`dispatch`]: the commands of the front end and their answers.
//! - [`startup`]: the steps that bring storage up, and where the database
//!   lives.
//! - [`laws`]: what holds across requests.
//!
//! A program that keeps the posts in a database file runs the steps of
//! [`startup`] and the queries itself and leaves every decision to this
//! library: which rows a page asks for, how many pages there are, what a
//! command answers to what storage returned.

pub mod dispatch;
pub mod error;
pub mod laws;
pub mod pagination;
pub mod post;
pub mod startup;
pub mod store;
pub mod table;
