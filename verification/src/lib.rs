pub mod actors;
pub mod auth;
pub mod components;
pub mod date;
pub mod demo;
pub mod document;
pub mod emails;
pub mod errors;
pub mod google;
pub mod import;
pub mod integrations;
pub mod jobs;
pub mod models;
pub mod object_id;
pub mod pagination;
pub mod resource_metadata;
pub mod routes;
pub mod text;
pub mod traer;
pub mod token;
pub mod util;
