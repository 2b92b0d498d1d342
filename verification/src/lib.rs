pub mod admin;
pub mod api;
pub mod decode;
pub mod dedup;
pub mod env;
pub mod event;
pub mod events;
pub mod json;
pub mod modals;
pub mod number;
pub mod payload;
pub mod reconcile;
pub mod remote;
pub mod render;
pub mod roles;
pub mod signature;
pub mod status;
pub mod text;
pub mod text_message;
pub mod workflow;
