//! A verified article store for a blogging service.
//!
//! The store keeps articles, their tags and their favorites, and reads the
//! user and follower tables to annotate what it hands out. Every operation
//! is stated over [`model::Tables`], a relational model made of sets of
//! rows, and proved against it.
//!
//! - [`slug`]: the URL-safe names of articles, unique by construction.
//! - [`rows`]: the rows, the inputs and the responses, each with its view.
//! - [`model`]: the tables as sets, and what each operation makes of them.
//! - [`store`]: the tables as vectors, and the statements on single tables.
//! - [`tags`], [`social`]: tag sets as a whole; favorites and followers.
//! - [`statements`]: plans of statements, and how a run of them ends.
//! - [`lifecycle`]: create, read, update, delete, favorite, unfavorite.
//! - [`laws`]: what holds across operations.

pub mod error;
pub mod laws;
pub mod lifecycle;
pub mod model;
pub mod rows;
pub mod seqs;
pub mod slug;
pub mod social;
pub mod statements;
pub mod store;
pub mod tags;

pub use crate::error::{Error, StorageFault};
pub use crate::lifecycle::{authorize, plan_delete};
pub use crate::rows::{
    Article, ArticleResponse, ArticleTag, ArticleUpdate, Favorite, Follow, NewArticle,
    ProfileResponse, User,
};
pub use crate::slug::{compose_slug, generate_slug};
pub use crate::statements::{cascade, has_generated_slug, tag_replacement, Statement};
pub use crate::store::Store;
