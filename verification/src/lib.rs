//! Rules of the Mairie 360 calendar API: event validation, access rights,
//! query parameters and the decisions of the HTTP handlers.

pub mod text;
pub mod time;
pub mod params;
pub mod model;
pub mod error;
pub mod rules;
pub mod access;
pub mod members;
pub mod status_update;
pub mod queries;
pub mod patch;
pub mod post;
pub mod detail;
pub mod calendar;
pub mod member_params;
pub mod handlers;
