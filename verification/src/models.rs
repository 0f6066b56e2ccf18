//! The requests, rows and responses of the service.

pub mod amount;
pub mod auth_models;
pub mod category_models;
pub mod expense_model;
pub mod user_model;
