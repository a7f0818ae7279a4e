use vstd::prelude::*;
use vstd::string::StringExecFns;
use crate::channel::{Channel, CHANNEL_COUNT};
use crate::color::Color;
use crate::paint::{painted_of, paint_label};

verus! {

/// The verbosity level type.
pub type LogLevel = i32;

/// Identifies one sink owned by a `Logger`.
pub type SinkId = usize;

/// The logging context: the global verbosity threshold, the per-channel
/// color and stream registries, the color toggle, and the sinks that the
/// bound streams write into.
///
/// A sink is an in-memory line buffer owned by the logger; several channels
/// may be bound to the same sink, in which case their emissions accumulate
/// in order in that one buffer. A fresh logger owns a single sink, bound to
/// every channel, standing for the shared console; a front end drains it to
/// the real console.
pub struct Logger {
    verbosity: LogLevel,
    colors: Vec<Option<Color>>,
    streams: Vec<Option<SinkId>>,
    sinks: Vec<String>,
    color_enabled: bool,
}

/// The mathematical state of a `Logger`.
#[verifier::ext_equal]
pub struct LogModel {
    pub verbosity: int,
    pub colors: Seq<Option<Color>>,
    pub streams: Seq<Option<int>>,
    pub sinks: Seq<Seq<char>>,
    pub color_enabled: bool,
}

impl LogModel {
    /// Both registries have an entry slot for every channel, and every bound
    /// stream refers to an existing sink.
    pub open spec fn wf(self) -> bool {
        &&& self.colors.len() == CHANNEL_COUNT
        &&& self.streams.len() == CHANNEL_COUNT
        &&& forall|i: int|
            0 <= i < self.streams.len() && self.streams[i] is Some ==> 0 <= (
            #[trigger] self.streams[i])->0 < self.sinks.len()
    }

    /// The color currently configured for `ch`, falling back to white where
    /// none is configured; a lookup never fails.
    pub open spec fn color_of(self, ch: Channel) -> Color {
        match self.colors[ch.index_spec()] {
            Some(c) => c,
            None => Color::White,
        }
    }

    /// The sink `ch` is currently bound to, if any.
    pub open spec fn stream_of(self, ch: Channel) -> Option<int> {
        self.streams[ch.index_spec()]
    }

    /// The label that prefixes a line emitted through `ch`: the channel name
    /// decorated with its configured color, or the plain name while color is
    /// disabled.
    pub open spec fn painted_label(self, ch: Channel) -> Seq<char> {
        if self.color_enabled {
            painted_of(ch.name_spec(), self.color_of(ch).code_spec())
        } else {
            ch.name_spec()
        }
    }

    /// The full line that one emission through `ch` appends to its sink.
    pub open spec fn line_of(self, ch: Channel, message: Seq<char>) -> Seq<char> {
        self.painted_label(ch) + ": "@ + message + "\n"@
    }

    /// The state after the threshold is overwritten.
    pub open spec fn with_verbosity(self, v: int) -> LogModel {
        LogModel { verbosity: v, ..self }
    }

    /// The state after `ch`'s color is overwritten.
    pub open spec fn with_color(self, ch: Channel, c: Color) -> LogModel {
        LogModel { colors: self.colors.update(ch.index_spec(), Some(c)), ..self }
    }

    /// The state after `ch` is rebound to sink `s`.
    pub open spec fn with_stream(self, ch: Channel, s: int) -> LogModel {
        LogModel { streams: self.streams.update(ch.index_spec(), Some(s)), ..self }
    }

    /// The state after the color toggle is set.
    pub open spec fn with_color_enabled(self, on: bool) -> LogModel {
        LogModel { color_enabled: on, ..self }
    }

    /// The state after a fresh, empty sink is registered.
    pub open spec fn with_new_sink(self) -> LogModel {
        LogModel { sinks: self.sinks.push(Seq::empty()), ..self }
    }

    /// The state after sink `s` is emptied.
    pub open spec fn drained(self, s: int) -> LogModel {
        LogModel { sinks: self.sinks.update(s, Seq::empty()), ..self }
    }

    /// The state after one `log` call: the rendered line is appended to the
    /// channel's bound sink iff the threshold admits the level; a message
    /// over the threshold, or one on a channel with no bound sink, leaves
    /// the state unchanged.
    pub open spec fn logged(self, ch: Channel, level: int, message: Seq<char>) -> LogModel {
        if self.verbosity >= level {
            match self.stream_of(ch) {
                Some(s) => LogModel {
                    sinks: self.sinks.update(s, self.sinks[s] + self.line_of(ch, message)),
                    ..self
                },
                None => self,
            }
        } else {
            self
        }
    }

    /// The state of a fresh logger: threshold zero, the documented default
    /// color for every channel, every channel bound to the one console sink,
    /// and color enabled.
    pub open spec fn initial() -> LogModel {
        LogModel {
            verbosity: 0,
            colors: seq![
                Some(Color::Red),
                Some(Color::BrightRed),
                Some(Color::Yellow),
                Some(Color::Blue),
                Some(Color::Green),
                Some(Color::BrightBlack),
                Some(Color::Cyan),
            ],
            streams: seq![
                Some(0int),
                Some(0int),
                Some(0int),
                Some(0int),
                Some(0int),
                Some(0int),
                Some(0int),
            ],
            sinks: seq![Seq::empty()],
            color_enabled: true,
        }
    }
}

impl View for Logger {
    type V = LogModel;

    closed spec fn view(&self) -> LogModel {
        LogModel {
            verbosity: self.verbosity as int,
            colors: self.colors@,
            streams: Seq::new(
                self.streams@.len(),
                |i: int|
                    match self.streams@[i] {
                        Some(s) => Some(s as int),
                        None => None,
                    },
            ),
            sinks: Seq::new(self.sinks@.len(), |i: int| self.sinks@[i]@),
            color_enabled: self.color_enabled,
        }
    }
}

impl Logger {
    /// Create a logging context with the default configuration.
    pub fn new() -> (l: Logger)
        ensures
            l@ == LogModel::initial(),
            l@.wf(),
    {
        let l = Logger {
            verbosity: 0,
            colors: vec![
                Some(Color::Red),
                Some(Color::BrightRed),
                Some(Color::Yellow),
                Some(Color::Blue),
                Some(Color::Green),
                Some(Color::BrightBlack),
                Some(Color::Cyan),
            ],
            streams: vec![Some(0), Some(0), Some(0), Some(0), Some(0), Some(0), Some(0)],
            sinks: vec![String::new()],
            color_enabled: true,
        };
        proof {
            assert(l@ =~~= LogModel::initial());
        }
        l
    }
}

/// Set the global verbosity level. Any value is accepted, negative ones
/// included; it takes effect for every subsequent emission.
pub fn set_verbosity(logger: &mut Logger, new_value: LogLevel)
    ensures
        final(logger)@ == old(logger)@.with_verbosity(new_value as int),
        old(logger)@.wf() ==> final(logger)@.wf(),
{
    logger.verbosity = new_value;
    proof {
        assert(logger@ =~~= old(logger)@.with_verbosity(new_value as int));
    }
}

/// Read the current global verbosity level.
pub fn get_verbosity(logger: &Logger) -> (v: LogLevel)
    ensures
        v as int == logger@.verbosity,
{
    logger.verbosity
}

/// Unconditionally disable color/styling for this context. Use this when
/// logging to a file.
pub fn disable_color(logger: &mut Logger)
    ensures
        final(logger)@ == old(logger)@.with_color_enabled(false),
        old(logger)@.wf() ==> final(logger)@.wf(),
{
    logger.color_enabled = false;
    proof {
        assert(logger@ =~~= old(logger)@.with_color_enabled(false));
    }
}

/// Unconditionally enable color/styling for this context. This is the
/// default.
pub fn enable_color(logger: &mut Logger)
    ensures
        final(logger)@ == old(logger)@.with_color_enabled(true),
        old(logger)@.wf() ==> final(logger)@.wf(),
{
    logger.color_enabled = true;
    proof {
        assert(logger@ =~~= old(logger)@.with_color_enabled(true));
    }
}

/// Returns true if color/styling is enabled for this context.
pub fn color_is_enabled(logger: &Logger) -> (r: bool)
    ensures
        r == logger@.color_enabled,
{
    logger.color_enabled
}

/// Register a fresh, empty sink with the logger and return its id, so that
/// channels can be bound to it with `Channel::set_stream`.
pub fn new_sink(logger: &mut Logger) -> (s: SinkId)
    requires
        old(logger)@.wf(),
    ensures
        final(logger)@ == old(logger)@.with_new_sink(),
        final(logger)@.wf(),
        s as int == old(logger)@.sinks.len(),
{
    let s = logger.sinks.len();
    logger.sinks.push(String::new());
    proof {
        assert(logger@ =~~= old(logger)@.with_new_sink());
    }
    s
}

/// The number of sinks this logger owns; every id below it is valid.
pub fn sink_count(logger: &Logger) -> (n: usize)
    ensures
        n as int == logger@.sinks.len(),
{
    logger.sinks.len()
}

/// Read the text that sink `s` has accumulated.
pub fn sink_text(logger: &Logger, s: SinkId) -> (r: String)
    requires
        (s as int) < logger@.sinks.len(),
    ensures
        r@ == logger@.sinks[s as int],
{
    logger.sinks[s].clone()
}

/// Take the text that sink `s` has accumulated, leaving the sink empty.
/// A front end uses this to forward buffered lines to a real destination.
pub fn drain_sink(logger: &mut Logger, s: SinkId) -> (r: String)
    requires
        old(logger)@.wf(),
        (s as int) < old(logger)@.sinks.len(),
    ensures
        r@ == old(logger)@.sinks[s as int],
        final(logger)@ == old(logger)@.drained(s as int),
        final(logger)@.wf(),
{
    let r = logger.sinks[s].clone();
    let sink = &mut logger.sinks[s];
    *sink = String::new();
    proof {
        assert(logger@ =~~= old(logger)@.drained(s as int));
    }
    r
}

impl Channel {
    /// Fetch the current color for the label of this channel. Falls back to
    /// white where none is configured; never fails.
    pub fn get_color(&self, logger: &Logger) -> (c: Color)
        requires
            logger@.wf(),
        ensures
            c == logger@.color_of(*self),
    {
        let i = self.index();
        match logger.colors[i] {
            Some(c) => c,
            None => Color::White,
        }
    }

    /// Set the color for the label of this channel. Takes effect for every
    /// subsequent rendering; no other channel's color is touched.
    pub fn set_color(&self, logger: &mut Logger, color: Color)
        requires
            old(logger)@.wf(),
        ensures
            final(logger)@ == old(logger)@.with_color(*self, color),
            final(logger)@.wf(),
    {
        let i = self.index();
        let slot = &mut logger.colors[i];
        *slot = Some(color);
        proof {
            assert(logger@ =~~= old(logger)@.with_color(*self, color));
        }
    }

    /// The name of this channel decorated with its current color, honoring
    /// the color toggle: while color is disabled the plain name comes back,
    /// with no styling codes.
    pub fn painted_name(&self, logger: &Logger) -> (r: String)
        requires
            logger@.wf(),
        ensures
            r@ == logger@.painted_label(*self),
    {
        if color_is_enabled(logger) {
            let c = self.get_color(logger);
            paint_label(self.name(), &c)
        } else {
            String::from_str(self.name())
        }
    }

    /// Bind this channel to sink `sink`; the previous binding is replaced.
    /// Several channels may be bound to the same sink. No other channel's
    /// binding is touched.
    pub fn set_stream(&self, logger: &mut Logger, sink: SinkId)
        requires
            old(logger)@.wf(),
            (sink as int) < old(logger)@.sinks.len(),
        ensures
            final(logger)@ == old(logger)@.with_stream(*self, sink as int),
            final(logger)@.wf(),
    {
        let i = self.index();
        let slot = &mut logger.streams[i];
        *slot = Some(sink);
        proof {
            assert(logger@ =~~= old(logger)@.with_stream(*self, sink as int));
        }
    }
}

/// Log `message` to the given `Channel` at the given (verbosity) `LogLevel`.
///
/// The message is emitted iff the global verbosity threshold is at least
/// `log_level`: the line "<painted channel name>: <message>", with a trailing
/// newline, is appended to the channel's bound sink. A message over the
/// threshold, or one on a channel with no bound sink, is silently dropped;
/// the call never fails.
pub fn log(logger: &mut Logger, channel: Channel, log_level: LogLevel, message: &str)
    requires
        old(logger)@.wf(),
    ensures
        final(logger)@ == old(logger)@.logged(channel, log_level as int, message@),
        final(logger)@.wf(),
{
    if logger.verbosity >= log_level {
        let i = channel.index();
        let bound = logger.streams[i];
        if let Some(s) = bound {
            let mut line = channel.painted_name(logger);
            line.append(": ");
            line.append(message);
            line.append("\n");
            let sink = &mut logger.sinks[s];
            sink.append(line.as_str());
            proof {
                assert(logger@ =~~= old(logger)@.logged(
                    channel,
                    log_level as int,
                    message@,
                ));
            }
        }
    }
}

} // verus!
