pub mod user;
pub mod resource;
pub mod list;
pub mod integration;
pub mod like;
pub mod feed_integration;
