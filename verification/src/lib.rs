//! A client binding for the Resend transactional e-mail API.
//!
//! The library builds the JSON body of a message, states the HTTPS request
//! that carries it, and turns the reply into an [`client::Email`] or an
//! [`error::Error`]. Performing the request is left to the caller.

pub mod client;
pub mod error;
pub mod json;
pub mod mail;
