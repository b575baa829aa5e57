//! A small blog core: an immutable registry of posts keyed by slug, a
//! resolver from a URL path segment to a post, and page rendering built on a
//! markdown-to-HTML converter.
pub mod content;
pub mod post;
pub mod registry;
pub mod render;
pub mod router;
pub mod text;
