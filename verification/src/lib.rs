//! A verified client core for collecting a web service's starred stories.
//!
//! The library holds the logic of the run: building the url-encoded request
//! bodies, extracting the session credential from the login response,
//! decoding each page of stories, accumulating pages until the first empty
//! one, and rendering the output document. The surrounding program performs
//! the HTTP requests and file writes and feeds their outcomes back in as
//! plain values.

pub mod errors;
pub mod form;
pub mod pages;
pub mod session;
pub mod text;

pub use errors::RunError;
