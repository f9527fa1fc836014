//! Verified core of a small utility for safely ejecting removable drives:
//! language catalogues, settings rules, text encoding and the decisions that
//! drive the user interface.

pub mod i18n;
pub mod laws;
pub mod settings;
pub mod single_instance;
pub mod text;
pub mod ui;
pub mod utf16;
pub mod utils;
