//! Core rules of a small administrative backend: admin sessions, the
//! archive of contact messages, and the normalisation of uploaded images.

pub mod archive;
pub mod auth;
pub mod config;
pub mod content;
pub mod error;
pub mod images;
pub mod models;
pub mod pagination;
pub mod session;
pub mod text;
pub mod time;
pub mod validation;
