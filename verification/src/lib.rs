//! Verified core logic of the Electrobun runtime pieces.
pub mod text;
pub mod frame;
pub mod http;
pub mod secret_key;
pub mod ffi_types;
pub mod registry;
pub mod host_queue;
pub mod json;
pub mod base64;
pub mod transport;
pub mod selfextract;
pub mod runtime;
pub mod lifecycle;
pub mod error;
pub mod ops;
pub mod bridge;
pub mod bridge_message;
pub mod tray;
pub mod path;
pub mod sdk_types;
pub mod sdk_paths;
pub mod extractor;
pub mod launcher;
