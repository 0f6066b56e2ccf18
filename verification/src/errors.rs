//! What can go wrong, by service, with the status each failure is reported
//! under.

pub mod auth_errors;
pub mod category_errors;
pub mod errors;
pub mod expense_errors;
pub mod store_errors;
