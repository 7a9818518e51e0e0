//! Hotlink-protected media gateway: the access rules and the request pipeline.

pub mod config;
pub mod encoding;
pub mod handler;
pub mod security;
pub mod text;
