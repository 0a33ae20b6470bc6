//! Core of a terminal remote control for Spotify.

pub mod action;
pub mod app;
pub mod auth;
pub mod clock;
pub mod error;
pub mod fetch;
pub mod focus;
pub mod history;
pub mod json;
pub mod keys;
pub mod layout;
pub mod model;
pub mod pairs;
pub mod panel;
pub mod picture;
pub mod popup;
pub mod query;
pub mod request;
pub mod selection;
pub mod text;
