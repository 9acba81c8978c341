pub mod components;
pub mod contexts;
pub mod models;
pub mod proto_exts;
pub mod rpc;
pub mod text;
pub mod views;
