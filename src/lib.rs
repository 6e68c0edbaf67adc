//! Terminal news reader: the article list with its selection cursor, the key
//! protocol that drives it, the pipeline that fills it from a feed, and the
//! content model that a terminal front end draws.
pub mod article;
pub mod content;
pub mod render;
pub mod session;
