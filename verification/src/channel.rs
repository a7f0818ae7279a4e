use vstd::prelude::*;
use crate::color::Color;

verus! {

/// The number of channel variants.
pub const CHANNEL_COUNT: usize = 7;

/// Channels to which a log entry can be published.
///
/// A channel is a named category of message. It carries no severity of its
/// own: it is used only as a key into the per-channel color and stream
/// registries, and its name prefixes every line emitted through it.
#[derive(PartialEq, Eq, Structural, Clone, Copy, Hash, Debug)]
pub enum Channel {
    Critical,
    Error,
    Warning,
    Notice,
    Info,
    Debug,
    Trace,
}

impl Channel {
    /// The position of this channel among the variants, used to key the
    /// per-channel registries.
    pub open spec fn index_spec(self) -> int {
        match self {
            Channel::Critical => 0,
            Channel::Error => 1,
            Channel::Warning => 2,
            Channel::Notice => 3,
            Channel::Info => 4,
            Channel::Debug => 5,
            Channel::Trace => 6,
        }
    }

    /// Executable counterpart of `index_spec`.
    pub fn index(&self) -> (i: usize)
        ensures
            i == self.index_spec(),
            i < CHANNEL_COUNT,
    {
        match self {
            Channel::Critical => 0,
            Channel::Error => 1,
            Channel::Warning => 2,
            Channel::Notice => 3,
            Channel::Info => 4,
            Channel::Debug => 5,
            Channel::Trace => 6,
        }
    }

    /// The display name of this channel: its variant name.
    pub open spec fn name_spec(self) -> Seq<char> {
        match self {
            Channel::Critical => "Critical"@,
            Channel::Error => "Error"@,
            Channel::Warning => "Warning"@,
            Channel::Notice => "Notice"@,
            Channel::Info => "Info"@,
            Channel::Debug => "Debug"@,
            Channel::Trace => "Trace"@,
        }
    }

    /// Executable counterpart of `name_spec`.
    pub fn name(&self) -> (r: &'static str)
        ensures
            r@ == self.name_spec(),
    {
        match self {
            Channel::Critical => "Critical",
            Channel::Error => "Error",
            Channel::Warning => "Warning",
            Channel::Notice => "Notice",
            Channel::Info => "Info",
            Channel::Debug => "Debug",
            Channel::Trace => "Trace",
        }
    }

    /// The color a fresh logger assigns to this channel's label.
    pub open spec fn default_color_spec(self) -> Color {
        match self {
            Channel::Critical => Color::Red,
            Channel::Error => Color::BrightRed,
            Channel::Warning => Color::Yellow,
            Channel::Notice => Color::Blue,
            Channel::Info => Color::Green,
            Channel::Debug => Color::BrightBlack,
            Channel::Trace => Color::Cyan,
        }
    }
}

} // verus!
