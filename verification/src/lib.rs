//! Fetch, diff and distribute: the rules by which a page of announcements is
//! turned into posts, compared with what was seen before, and handed out in
//! bounded batches to the registered delivery endpoints.

pub mod errors;
pub mod post;
pub mod novelty;
pub mod embed;
pub mod batch;
pub mod history;
pub mod text;
pub mod markup;
pub mod extract;
pub mod endpoint;
pub mod payload;
pub mod pipeline;
pub mod scheduler;
pub mod storage;
pub mod logline;
pub mod clock;
