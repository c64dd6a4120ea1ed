//! Assigns a chat list's dialogs to named folders by a rule file, and
//! reconciles the desired folder layout against the remote service's current
//! folders, merging overlapping state rather than overwriting it.

pub mod condition;
pub mod dialog;
pub mod folder;
pub mod merge;
pub mod numeral;
pub mod peer;
pub mod reconcile;
pub mod regex_ops;
pub mod rules;
pub mod strutil;
