//! Redaction: ordered pattern-to-replacement rules applied to free text.

pub mod filter_manager;
pub mod filter_rule;
pub mod pattern;
