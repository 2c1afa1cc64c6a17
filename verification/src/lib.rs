//! Small, separate pieces of program logic, each with its contract: a doubly
//! linked list and its shared form, a vending machine, readers of format
//! specifications and of guesses, a repository of users, and the decisions
//! of two small services.
//!
//! What other crates compute for the library (hashes, encodings, matches of
//! a regular expression, calendar dates, persistent maps) is believed, not
//! proved: each such call stands in one small function that says what is
//! believed of it.

pub mod list;
pub mod list_model;
pub mod shared_list;
pub mod stack;

pub mod trade;
pub mod money;
pub mod product;
pub mod vending;

pub mod text;
pub mod chance;
pub mod format_spec;
pub mod format_regex;
pub mod guess;
pub mod email;
pub mod facts;

pub mod user;
pub mod post;
pub mod error;
pub mod mutation;
pub mod dispatch;
pub mod sized;
pub mod users;

pub mod age;
pub mod crypto;
pub mod auth;
pub mod friends;
pub mod articles;
pub mod config;
pub mod settings;
pub mod matrix;
