//! Management query results as JSON values: the typed cells a provider hands
//! back, their projection onto JSON, and the session steps around a query.

pub mod assoc;
pub mod client;
pub mod error;
pub mod ieee;
pub mod json;
pub mod project;
pub mod record;
pub mod variant;
