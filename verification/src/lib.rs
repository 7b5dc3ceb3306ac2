//! Decoding of untrusted request bodies into typed values, and the decisions
//! of a file upload, with the text of the replies that go back to the client.

pub mod address;
pub mod decimal;
pub mod errors;
pub mod reply;
pub mod upload;
pub mod upload_lemmas;
pub mod vector;
pub mod vector_lemmas;
