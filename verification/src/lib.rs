//! A small message exchange between known users: credentials are checked
//! against a user table, and an authenticated user can list the messages
//! addressed to them, send a message to another user and acknowledge the
//! receipt of one.
//!
//! The relational tables are held in memory by [`schema::Database`], and
//! every operation is specified over the mathematical view of those tables.
//! [`plan`] gives the same operations as plans that never touch a store, for
//! a caller that keeps the tables elsewhere; [`agreement`] proves that a plan
//! answered by the tables ends as the operation does, and [`laws`] what
//! holds of the operations taken together.

pub mod agreement;
pub mod authentication;
pub mod identifier;
pub mod laws;
pub mod messages;
pub mod plan;
pub mod response;
pub mod schema;
