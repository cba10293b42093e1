//! Libre Static Forms: the rules that turn a POST from a static website
//! into a checked form and a plain-text mail for the form's owner.

pub mod text;
pub mod webmodels;
pub mod strmap;
pub mod errors;
pub mod config;
pub mod json;
pub mod handlers;
pub mod emails;
pub mod templates;
pub mod db;
