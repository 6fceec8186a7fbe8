//! Request-orchestration and overlay-state core of a desktop text-assistant.
//!
//! The library owns the logic of the application: mapping a user-chosen
//! action and tone to a deterministic system prompt, building the upstream
//! chat-completion request, classifying upstream failures, managing the
//! user-configurable global shortcut binding, and planning the overlay
//! visibility toggle.  All I/O (HTTP, window, clipboard, settings file)
//! stays with the callers, which hand plain values in and take plain
//! values back.

pub mod errors;
pub mod gateway;
pub mod json;
pub mod overlay;
pub mod prompt;
pub mod shortcut;
pub mod text;
