//! Encrypted file exchange: a file is sealed for one recipient, kept until it
//! expires, and handed out again only to that recipient.

pub mod cipher;
pub mod error;
pub mod janitor;
pub mod keys;
pub mod listing;
pub mod password;
pub mod record;
pub mod retrieval;
pub mod routes;
pub mod state;
pub mod store;
pub mod token;
pub mod upload;
pub mod user;
