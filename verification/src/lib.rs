//! Client-side logic for an air-quality index service: option parsing,
//! request construction, severity bands and terminal rendering.

pub mod band;
pub mod config;
pub mod model;
pub mod options;
pub mod paint;
pub mod present;
pub mod request;
pub mod text;
