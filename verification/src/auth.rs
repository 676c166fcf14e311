//! How a user is signed in.

use vstd::prelude::*;

verus! {

/// The kind of credentials in use.
#[derive(Clone, Copy, Debug, PartialEq, Eq, Structural)]
pub enum AuthMode {
    ApiKey,
    Chatgpt,
    ChatgptAuthTokens,
}

/// The kind of account that requests are made for.
#[derive(Clone, Copy, Debug, PartialEq, Eq, Structural)]
pub enum InternalAuthMode {
    ApiKey,
    Chatgpt,
}

/// The one login method that an administrator left open.
#[derive(Clone, Copy, Debug, PartialEq, Eq, Structural)]
pub enum ForcedLoginMethod {
    Chatgpt,
    Api,
}

/// Whether a login was found at startup.
#[derive(Clone, Copy, Debug, PartialEq, Eq, Structural)]
pub enum LoginStatus {
    AuthMode(AuthMode),
    NotAuthenticated,
}

} // verus!
