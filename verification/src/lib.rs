//! Decision logic of an automated daily forum check-in: configuration
//! validation, the date-keyed thread locator, reputation text handling and the
//! step-by-step workflow controller that a browser-driving loop consults.

pub mod config;
pub mod controller;
pub mod decimal;
pub mod directions;
pub mod gate;
pub mod laws;
pub mod locator;
pub mod outcome;
pub mod plan;
pub mod site;
pub mod stat;
pub mod text;
