//! Request handling for an HTTP front end that forwards one image to an
//! external classifier program and returns its output as an HTML fragment.

pub mod cors;
pub mod decode;
pub mod error;
pub mod response;
pub mod handler;
