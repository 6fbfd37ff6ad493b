pub mod bookmark;
pub mod client;
pub mod error;
pub mod hide_replies;
pub mod json;
pub mod urlcheck;
