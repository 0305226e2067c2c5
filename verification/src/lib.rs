//! Verified core of a desktop utility backend: credential encryption at rest,
//! an expiry-aware OAuth token cache, proxy selection, and the request and
//! response shaping of the translation and statistics adapters.
//!
//! Nothing here touches the network, the database or the credential store.
//! Callers perform those operations and hand the outcomes to these functions,
//! which decide what to do next. The only effects of their own are reading
//! the system clock and drawing random bytes, and each function that does
//! either has a twin that takes the time or the bytes as an argument.

pub mod commands;
pub mod encoding;
pub mod error;
pub mod json;
pub mod settings;
pub mod text;
pub mod window;
