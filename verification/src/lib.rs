//! Verified core of the F1 notifications bot: the Discord messages it keeps
//! up to date, the HTML of its web interface, and the decisions its request
//! handlers and background loop make.
pub mod model;
pub mod text;
pub mod time;
pub mod calendar;
pub mod bot;
pub mod laws;
pub mod icon;
pub mod markup;
pub mod html;
pub mod pages;
pub mod auth;
pub mod error;
pub mod routes;
pub mod discord;
