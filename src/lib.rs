//! Authentication and authorization core of a record-collection backend:
//! password hashing, signed access / refresh / reset tokens, the
//! authentication service over a user directory, and ownership checks on
//! collections.

pub mod role;
pub mod text;
pub mod claims;
pub mod token;
pub mod hasher;
pub mod mail;
pub mod directory;
pub mod auth;
pub mod collection;
pub mod search;
