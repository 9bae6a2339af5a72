//! What stands between a request and its handler, and between a reply and
//! the wire: access control and the request log.

pub mod auth;
pub mod logging;
