pub mod domain;
pub mod text;
pub mod validation;
pub mod search;
pub mod ids;
pub mod identity;
pub mod models;
pub mod artifact_store;
pub mod events;
pub mod repository;
pub mod handlers;
pub mod checksum;
pub mod products;
