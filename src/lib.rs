//! A small book catalog: flexible timestamp parsing, a localized message
//! catalog, request validation and the decisions of the record lifecycle.

pub mod datetime;
pub mod i18n;
pub mod books;
pub mod validate;
