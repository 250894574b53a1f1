//! Tool dispatch and encoding engine of a gateway that exposes a fixed
//! catalog of tools and turns each invocation into one HTTP call against a
//! SiYuan backend.

pub mod args;
pub mod catalog;
pub mod client;
pub mod encoding;
pub mod error;
pub mod json;
pub mod registry;
pub mod request;
pub mod response;
pub mod text;
pub mod tool;
