//! Client-side rules for the MANGA Plus mobile API: language codes,
//! request construction, response interpretation, image retry and cache
//! policy, device registration parameters and image-cache pruning.
//!
//! The network and file-system work itself (HTTP, protobuf decoding,
//! sleeping, reading and deleting cache files) is done by the caller, which
//! hands this library plain values and acts on what it answers.

pub mod cache_gc;
pub mod client;
pub mod error;
pub mod image;
pub mod lang;
pub mod path_order;
pub mod proto;
pub mod register;
pub mod request;
pub mod response;
pub mod text;

pub use client::{ClientConfig, API_HOST, APP_VER, OS_VER_DEFAULT};
pub use error::{ApiError, Result};
