//! Media extraction for social platforms: URL classification, request
//! planning and the reshaping of platform JSON into the service's answers.

pub mod json;
pub mod text;
pub mod validator;
pub mod instagram;
pub mod tiktok;
pub mod twitter;
pub mod api;
