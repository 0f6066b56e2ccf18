//! The operations of the service, each as a flow of decisions.

pub mod auth_services;
pub mod category_services;
pub mod expense_reads;
pub mod expense_services;
pub mod expense_writes;
pub mod jwt_services;
pub mod user_services;
