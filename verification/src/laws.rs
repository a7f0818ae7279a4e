use vstd::prelude::*;
use crate::channel::Channel;
use crate::color::Color;
use crate::logger::LogModel;

verus! {

/// Threshold gating: a message logged at `level` is emitted — the bound
/// sink grows by exactly the rendered line, and by nothing else — iff the
/// current threshold is at least `level`. A suppressed message, or one on a
/// channel with no bound sink, leaves the whole state unchanged.
pub proof fn lemma_threshold_gating(m: LogModel, ch: Channel, level: int, message: Seq<char>)
    requires
        m.wf(),
    ensures
        m.verbosity >= level && m.stream_of(ch) is Some ==> {
            let s = m.stream_of(ch)->0;
            &&& m.logged(ch, level, message).sinks[s] == m.sinks[s] + m.line_of(ch, message)
            &&& m.logged(ch, level, message).sinks[s].len() > m.sinks[s].len()
        },
        m.verbosity < level ==> m.logged(ch, level, message) == m,
        m.stream_of(ch) is None ==> m.logged(ch, level, message) == m,
{
    reveal_strlit(": ");
    reveal_strlit("\n");
}

/// Channel isolation: overwriting one channel's color or stream binding
/// leaves every other channel's configured color and binding as they were.
pub proof fn lemma_channel_isolation(m: LogModel, ch: Channel, other: Channel, c: Color, s: int)
    requires
        m.wf(),
        other != ch,
    ensures
        m.with_color(ch, c).color_of(other) == m.color_of(other),
        m.with_color(ch, c).stream_of(other) == m.stream_of(other),
        m.with_stream(ch, s).stream_of(other) == m.stream_of(other),
        m.with_stream(ch, s).color_of(other) == m.color_of(other),
{
}

/// Color toggle: while color is disabled, the label rendered for any channel
/// is the plain channel name, whatever color is configured for it.
pub proof fn lemma_color_disabled_plain(m: LogModel, ch: Channel)
    ensures
        m.with_color_enabled(false).painted_label(ch) == ch.name_spec(),
        !m.color_enabled ==> m.painted_label(ch) == ch.name_spec(),
{
}

/// Default color fallback: a color lookup never fails. A channel whose
/// registry slot is empty gets white, and a fresh logger gives every channel
/// its documented default.
pub proof fn lemma_default_color(m: LogModel, ch: Channel)
    requires
        m.wf(),
    ensures
        m.colors[ch.index_spec()] is None ==> m.color_of(ch) == Color::White,
        LogModel::initial().color_of(ch) == ch.default_color_spec(),
{
}

/// Shared-sink fan-in: with two channels bound to the same sink and both
/// levels within the threshold, logging through one and then the other
/// appends both rendered lines, in order, to that one sink — and every
/// rendered line is terminated by its own newline.
pub proof fn lemma_shared_sink_fan_in(
    m: LogModel,
    ch1: Channel,
    ch2: Channel,
    l1: int,
    l2: int,
    msg1: Seq<char>,
    msg2: Seq<char>,
    s: int,
)
    requires
        m.wf(),
        m.stream_of(ch1) == Some(s),
        m.stream_of(ch2) == Some(s),
        m.verbosity >= l1,
        m.verbosity >= l2,
    ensures
        m.logged(ch1, l1, msg1).logged(ch2, l2, msg2).sinks[s] == m.sinks[s] + m.line_of(
            ch1,
            msg1,
        ) + m.line_of(ch2, msg2),
        m.line_of(ch1, msg1).last() == '\n',
        m.line_of(ch2, msg2).last() == '\n',
{
    reveal_strlit("\n");
    let m1 = m.logged(ch1, l1, msg1);
    assert(m1.line_of(ch2, msg2) == m.line_of(ch2, msg2));
    assert(m1.logged(ch2, l2, msg2).sinks[s] =~= m.sinks[s] + m.line_of(ch1, msg1) + m.line_of(
        ch2,
        msg2,
    ));
}

/// Idempotent toggles: disabling color twice in a row leaves the state
/// exactly as disabling it once does, and likewise for enabling.
pub proof fn lemma_toggle_idempotent(m: LogModel)
    ensures
        m.with_color_enabled(false).with_color_enabled(false) == m.with_color_enabled(false),
        m.with_color_enabled(true).with_color_enabled(true) == m.with_color_enabled(true),
{
}

} // verus!
