//! Reads the text in an image through an OCR service and asks a chat model
//! for a short answer to it.
//!
//! The library holds the logic of that pipeline: the MIME type of an image
//! path, the base64 data URL of its bytes, the reading of the services' JSON
//! replies, and the pipeline itself as a state machine whose actions (read a
//! file, send a request, print a line) a driver performs.
pub mod data_url;
pub mod json;
pub mod mime;
pub mod pipeline;
pub mod text;
