//! The schema, validation and form-binding engine of a mail server's
//! administration console, together with the decisions its pages take.
pub mod builder;
pub mod form;
pub mod listener;
pub mod login;
pub mod net;
pub mod report;
pub mod schema;
pub mod text;
pub mod transform;
pub mod validate;
