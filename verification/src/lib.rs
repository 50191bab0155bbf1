//! Statement-composition core of a blogging-platform backend.
//!
//! The library builds parameterized SQL statements — denormalized view
//! queries over articles and comments, conjunctive filter predicates, and
//! sparse column updates — as plain `(text, ordered bind values)` pairs.
//! It never executes a statement: an external storage executor binds the
//! values strictly by position and runs the text.

pub mod app_error;
pub mod article_statements;
pub mod comment_statements;
pub mod commands;
pub mod config;
pub mod dto;
pub mod fields;
pub mod filters;
pub mod laws;
pub mod profile_statements;
pub mod slug;
pub mod statement;
pub mod tag_statements;
pub mod text;
pub mod update_params;
pub mod user_service;
pub mod user_statements;
pub mod values;
pub mod views;
