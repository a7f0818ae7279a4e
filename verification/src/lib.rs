//! A minimal logging facility.
//!
//! Messages are tagged with a named [`Channel`] and a numeric verbosity
//! level, and are conditionally emitted to the channel's bound sink with a
//! colored channel-name prefix. The configuration — the verbosity threshold,
//! the per-channel colors and stream bindings, and the color toggle — lives
//! in an explicitly constructed [`Logger`] context.

mod channel;
mod color;
mod logger;
mod paint;
mod laws;

pub use channel::Channel;
pub use channel::CHANNEL_COUNT;
pub use color::Color;
pub use logger::{
    LogLevel, LogModel, Logger, SinkId, color_is_enabled, disable_color, drain_sink, enable_color,
    get_verbosity, log, new_sink, set_verbosity, sink_count, sink_text,
};
pub use paint::painted_of;
pub use laws::{
    lemma_channel_isolation, lemma_color_disabled_plain, lemma_default_color,
    lemma_shared_sink_fan_in, lemma_threshold_gating, lemma_toggle_idempotent,
};
