//! Access control and request handling for a small shop API.
//!
//! - `middleware::auth`: signed session tokens, and the decision whether a
//!   request may enter a protected route. A token is accepted only while the
//!   user directory still holds its user with its role.
//! - `transaction`: the discipline that every handler follows when it touches
//!   the store, as a state machine, with the laws that it keeps.
//! - `middleware::logging`: the classification that travels with every reply,
//!   out of band from what the client sees, and the entry that the request
//!   log makes of it.
//! - `routes`: what each handler plans, and how it words its replies.
//! - `entities`, `validation`, `text`: the records, the payload rules and the
//!   text utilities that the handlers share.

pub mod entities;
pub mod middleware;
pub mod routes;
pub mod text;
pub mod transaction;
pub mod validation;
