//! Adapters that give several AI providers' HTTP APIs one request and response model.

pub mod error;
pub mod json;
pub mod laws;
pub mod openai;
pub mod outside;
pub mod provider;
pub mod text_to_speech;
pub mod views;

pub use error::AdapterError;
pub use error::Malformed;
pub use openai::Message;
pub use provider::request_headers;
pub use provider::Header;
pub use provider::Key;
pub use provider::Provider;
pub use provider::Request;
