//! A typed, read-only client library for the Bugzilla REST API.
//!
//! The library builds query URLs from a request method, a field selection
//! and a pagination directive, and decodes JSON response bodies into
//! strongly typed bug records, preserving any server-specific extra fields.
//! The network transport itself is left to the caller.

mod access;
mod bug_methods;
mod bug_model;
mod decode;
mod errors;
mod json;
mod textfmt;
mod timestamp;

pub use access::{bug_from_body, bugs_from_body, response_from_body, Auth, BzInstance, Method, Pagination};
pub use bug_model::{Alias, Bug, BugzillaError, Component, Flag, OneOrMany, Response, User, Version};
pub use errors::BugzillaQueryError;
pub use json::JsonValue;
pub use timestamp::{Date, DateTime};
