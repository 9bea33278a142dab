//! Watches a paginated forum listing and tells which entries are new since
//! the previous poll, by remembering the identity of the newest entry seen.

pub mod text;
pub mod forum;
pub mod row;
pub mod page;
pub mod tracker;
pub mod history;
pub mod link;
pub mod markup;
pub mod report;
pub mod clock;
pub mod watch;
