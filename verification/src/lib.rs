//! A small image-hosting library: the decision logic of an upload server
//! (authentication, multipart field selection, base64 decoding, storage
//! naming) and of its upload client (PNG re-encoding, request building,
//! response parsing), with contracts over mathematical models. All I/O —
//! HTTP, the filesystem, the clipboard — stays with the caller, which
//! acts on the outcomes these functions return.

pub mod b64;
pub mod client;
pub mod config;
pub mod filename;
pub mod server;
