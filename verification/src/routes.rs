pub mod flow;
pub mod oauth;
pub mod auth;
