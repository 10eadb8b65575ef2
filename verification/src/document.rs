//! Per-container-format classification and re-encoding.
pub mod pkcs1_docs;
pub mod pkcs8_docs;
pub mod sec1_docs;
pub mod spki_docs;
