//! The credential subsystem: the cipher that hides client identities, the
//! issuing of signed tokens, and what is needed to validate them.

pub mod cipher;
pub mod error;
pub mod reading;
pub mod secret;
pub mod token;
pub mod validation;
