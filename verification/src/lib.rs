//! Selection-capture and text-injection engine.
//!
//! The engine decides how selected text is read from the focused UI element
//! and how replacement text is injected and re-highlighted.  Every decision —
//! the clipboard backup/restore protocol, the bounded fallback poll, the
//! synthetic key plans, the selection-range arithmetic, the editable
//! classification and the geometry checks — lives here as verified code.
//! The operating-system side effects themselves (reading and writing the real
//! clipboard, sending key events, querying the accessibility tree) are
//! performed by an unverified shell that drives these decisions.

pub mod capture;
pub mod clipboard;
pub mod editable;
pub mod error;
pub mod geometry;
pub mod inject;
pub mod keys;
pub mod range;
