pub mod agent;
pub mod chat;
pub mod completion;
pub mod config;
pub mod error;
pub mod json;
pub mod oauth;
pub mod posting;
pub mod text;
