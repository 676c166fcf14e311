//! Decisions behind a coding assistant's model selection and sign-in screens.
//!
//! - [`context_window`]: the stepped context window of a conversation.
//! - [`models`]: the models of a provider, the default among them, and the picker.
//! - [`onboarding`]: signing in, and the wizard for a custom provider.
//! - [`auth`]: the kinds of credentials.
//! - [`text`]: what trimming means.

pub mod auth;
pub mod context_window;
pub mod models;
pub mod onboarding;
pub mod text;
