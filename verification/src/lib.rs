//! Helpers for a web application: a template registry with lazy loading and
//! escape-policy inference, a minijinja-backed renderer, and the pure logic of
//! an HTTP-to-HTTPS redirector (target URI computation and listener
//! lifecycle).

pub mod redirect;
pub mod render;
pub mod table;
pub mod templates;
pub mod text;
