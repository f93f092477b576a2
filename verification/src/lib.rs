//! Decision logic of a small HTTP relay for an image-of-the-day service.
//!
//! The relay answers one inbound request by asking an upstream API for the
//! description of the current image, reading the image's address out of the
//! JSON answer, and replying either with that address or with the image
//! itself. This crate holds every decision of that path as verified
//! functions over plain values; sockets and outbound requests belong to
//! the program that drives it.

pub mod text;
pub mod decimal;
pub mod error;
pub mod document;
pub mod response;
pub mod config;
pub mod query;
pub mod upstream;
pub mod handler;
