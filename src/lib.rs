//! An in-memory blog content store: a fixed set of posts, the three read
//! accessors that serve it, and the policy that turns their responses into
//! domain errors.

pub mod error;
pub mod model;
pub mod store;
pub mod decimal;
pub mod params;
pub mod api;
pub mod laws;

pub use api::{get_comments, get_post, list_post_metadata, load_comment, load_post, post_href};
pub use error::{resolve, PostError, TransportError};
pub use model::{Comment, Post, PostMetadata};
pub use params::PostParams;
pub use store::ContentStore;
