//! A small imageboard: boards hold threads, threads hold replies.
//!
//! The library holds what the site decides: how a request path is routed,
//! what HTML each page is made of, and what each request handler does with
//! the answers of the database and of the upload form.  The program around
//! it performs the database queries, the file writes and the HTTP serving.
pub mod text;

pub mod models;
pub mod views;
pub mod filters;
pub mod handlers;
pub mod db;
