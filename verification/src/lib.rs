//! Core logic of a chat-room automation agent that replies to incoming
//! images with the GPS location found in their metadata, retracts those
//! replies when the triggering image is redacted, and accepts room
//! invitations with exponential backoff.
//!
//! Everything here is pure logic over plain values; the transport layer
//! (session management, media download, message delivery) lives outside
//! the library and hands values in and out.

pub mod backoff;
pub mod config;
pub mod events;
pub mod exif;
pub mod geo;
pub mod reconcile;
pub mod router;
pub mod tiff;
