pub mod auth_context;
pub mod selection_context;
