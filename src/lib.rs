//! Error deduplication and reporting for a text-to-speech chat bot, together
//! with the voice bookkeeping that its settings commands rely on.

pub mod fingerprint;
pub mod text;
pub mod envelope;
pub mod store;
pub mod report;
pub mod locale;
pub mod replies;
pub mod classify;
pub mod retrieval;
pub mod voices;
pub mod settings;
pub mod autocomplete;
pub mod status;
pub mod listing;
pub mod setup;
pub mod translation;
pub mod overview;
