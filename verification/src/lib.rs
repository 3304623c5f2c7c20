//! Looking up the compatibility ratings of a game: reading the storefront's
//! search page, telling games from other listings, reading the ratings
//! service's summary, and the lines that are shown to the user.
//!
//! The library makes no request itself. Its caller fetches the addresses that
//! `url` and `screening` name and hands over what came back.

pub mod classify;
pub mod display;
pub mod error;
pub mod html;
pub mod json;
pub mod ratings;
pub mod reply;
pub mod screening;
pub mod search;
pub mod selection;
pub mod text;
pub mod url;
