//! Requests arriving from an embedding user interface.
//!
//! A webview front end submits its requests as tagged commands, each
//! naming the callback to resolve and the error handler to reject.
//! Decoding the request text into this type is the embedding program's
//! business.

use vstd::prelude::*;

verus! {

/// One request from the user interface.
#[derive(Debug, Clone, PartialEq, Eq)]
pub enum Cmd {
    /// Report the application version.
    Version { callback: String, error: String },
    /// Report every adapter's information.
    GetAdapterInfo { callback: String, error: String },
}

} // verus!
