use tiny_logger::{
    color_is_enabled, disable_color, drain_sink, enable_color, get_verbosity, log, new_sink,
    set_verbosity, sink_text, Channel, Color, Logger,
};

#[test]
fn test_channel_colors_initialization() {
    // Verify initial colors
    let logger = Logger::new();
    assert_eq!(Channel::Critical.get_color(&logger), Color::Red);
    assert_eq!(Channel::Error.get_color(&logger), Color::BrightRed);
    assert_eq!(Channel::Warning.get_color(&logger), Color::Yellow);
    assert_eq!(Channel::Notice.get_color(&logger), Color::Blue);
    assert_eq!(Channel::Info.get_color(&logger), Color::Green);
    assert_eq!(Channel::Debug.get_color(&logger), Color::BrightBlack);
    assert_eq!(Channel::Trace.get_color(&logger), Color::Cyan);
}

#[test]
fn test_set_color() {
    let mut logger = Logger::new();
    // Change the color of the Info channel
    Channel::Info.set_color(&mut logger, Color::Magenta);
    assert_eq!(Channel::Info.get_color(&logger), Color::Magenta);
    // Set it back for subsequent uses of this context
    Channel::Info.set_color(&mut logger, Color::Green);
}

#[test]
fn test_get_color() {
    let logger = Logger::new();
    let critical_color = Channel::Critical.get_color(&logger);
    assert_eq!(critical_color, Color::Red);
}

use yansi::Paint;

#[test]
fn test_painted_name() {
    let logger = Logger::new();
    let painted_name = Channel::Warning.painted_name(&logger);
    let expected = "Warning".to_string().paint(yansi::Color::Yellow).to_string();
    assert_eq!(painted_name, expected);
}

#[test]
fn test_set_and_get_verbosity() {
    let mut logger = Logger::new();
    // Set verbosity and check if it was set correctly
    set_verbosity(&mut logger, 3);
    assert_eq!(get_verbosity(&logger), 3);
    // Reset to default
    set_verbosity(&mut logger, 0);
}

#[test]
fn test_logging() {
    let mut logger = Logger::new();
    // Create a buffer to capture log output
    let buffer = new_sink(&mut logger);

    // Set the logging stream for each channel to our buffer
    Channel::Critical.set_stream(&mut logger, buffer);
    Channel::Error.set_stream(&mut logger, buffer);
    Channel::Warning.set_stream(&mut logger, buffer);
    Channel::Notice.set_stream(&mut logger, buffer);
    Channel::Info.set_stream(&mut logger, buffer);
    Channel::Debug.set_stream(&mut logger, buffer);
    Channel::Trace.set_stream(&mut logger, buffer);

    // Set verbosity to 1
    set_verbosity(&mut logger, 1);
    disable_color(&mut logger);

    // Log messages
    log(&mut logger, Channel::Critical, 3, "Critical error occurred!"); // Not emitted
    log(&mut logger, Channel::Error, 2, "This is an error message."); // Not emitted
    log(&mut logger, Channel::Warning, 1, "Warning: Check your input."); // Emitted
    log(&mut logger, Channel::Notice, 0, "Notice: This is informational."); // Emitted
    log(&mut logger, Channel::Info, 1, "Info: Processing started."); // Emitted
    log(&mut logger, Channel::Debug, 0, "Debug: Variable values are correct."); // Emitted
    log(&mut logger, Channel::Trace, 0, "Trace: Step through the logic here."); // Emitted

    // Check the buffer contents
    let logged_string = sink_text(&logger, buffer);
    println!("{}", logged_string);
    assert!(logged_string.contains("Warning: Check your input."));
    assert!(logged_string.contains("Notice: This is informational."));
    assert!(logged_string.contains("Info: Processing started."));
    assert!(logged_string.contains("Debug: Variable values are correct."));
    assert!(logged_string.contains("Trace: Step through the logic here."));

    // Verify that not emitted messages are not in the buffer
    assert!(!logged_string.contains("Critical error occurred!"));
    assert!(!logged_string.contains("This is an error message."));

    // Reset verbosity to default
    set_verbosity(&mut logger, 0)
}

#[test]
fn test_scenario_threshold_one() {
    // threshold=1; log(Warning,1,"x") emitted; log(Error,2,"y") not emitted
    let mut logger = Logger::new();
    disable_color(&mut logger);
    set_verbosity(&mut logger, 1);
    log(&mut logger, Channel::Warning, 1, "x");
    log(&mut logger, Channel::Error, 2, "y");
    let out = sink_text(&logger, 0);
    assert_eq!(out, "Warning: x\n");
}

#[test]
fn test_scenario_info_to_sink() {
    // Bind Info to a fresh sink, threshold=1, log at level 0
    let mut logger = Logger::new();
    disable_color(&mut logger);
    let s = new_sink(&mut logger);
    Channel::Info.set_stream(&mut logger, s);
    set_verbosity(&mut logger, 1);
    log(&mut logger, Channel::Info, 0, "hello");
    let out = sink_text(&logger, s);
    assert!(out.contains("Info: hello"));
    assert_eq!(out, "Info: hello\n");
    // The default console sink saw nothing
    assert_eq!(sink_text(&logger, 0), "");
}

#[test]
fn test_scenario_custom_color_read_back() {
    // Set Critical's color to a custom value and read it back exactly
    let mut logger = Logger::new();
    Channel::Critical.set_color(&mut logger, Color::BrightMagenta);
    assert_eq!(Channel::Critical.get_color(&logger), Color::BrightMagenta);
}

#[test]
fn test_threshold_gating_levels() {
    // threshold=1: level 0 emitted, level 1 emitted, level 2 not emitted
    let mut logger = Logger::new();
    disable_color(&mut logger);
    set_verbosity(&mut logger, 1);
    log(&mut logger, Channel::Info, 0, "zero");
    log(&mut logger, Channel::Info, 1, "one");
    log(&mut logger, Channel::Info, 2, "two");
    let out = sink_text(&logger, 0);
    assert_eq!(out, "Info: zero\nInfo: one\n");
    assert!(!out.contains("two"));
}

#[test]
fn test_negative_verbosity() {
    // A negative threshold suppresses non-negative levels but admits levels
    // at or below it
    let mut logger = Logger::new();
    disable_color(&mut logger);
    set_verbosity(&mut logger, -1);
    log(&mut logger, Channel::Debug, 0, "suppressed");
    log(&mut logger, Channel::Debug, -1, "shown");
    log(&mut logger, Channel::Debug, -2, "also shown");
    let out = sink_text(&logger, 0);
    assert_eq!(out, "Debug: shown\nDebug: also shown\n");
}

#[test]
fn test_stream_isolation() {
    // Rebinding one channel's stream must not affect any other channel
    let mut logger = Logger::new();
    disable_color(&mut logger);
    let s = new_sink(&mut logger);
    Channel::Info.set_stream(&mut logger, s);
    log(&mut logger, Channel::Info, 0, "to the new sink");
    log(&mut logger, Channel::Warning, 0, "to the console sink");
    assert_eq!(sink_text(&logger, s), "Info: to the new sink\n");
    assert_eq!(sink_text(&logger, 0), "Warning: to the console sink\n");
}

#[test]
fn test_color_isolation() {
    // Overwriting one channel's color must not affect any other channel
    let mut logger = Logger::new();
    Channel::Info.set_color(&mut logger, Color::BrightWhite);
    assert_eq!(Channel::Warning.get_color(&logger), Color::Yellow);
    assert_eq!(Channel::Critical.get_color(&logger), Color::Red);
    assert_eq!(Channel::Info.get_color(&logger), Color::BrightWhite);
}

#[test]
fn test_default_color_deterministic() {
    // A channel with no explicitly set color returns the same value on every
    // fresh context, without failing
    let a = Logger::new();
    let b = Logger::new();
    assert_eq!(Channel::Trace.get_color(&a), Channel::Trace.get_color(&b));
    assert_eq!(Channel::Notice.get_color(&a), Color::Blue);
}

#[test]
fn test_shared_sink_fan_in() {
    // Two distinct channels bound to the same sink: both messages appear,
    // each terminated by its own line break
    let mut logger = Logger::new();
    disable_color(&mut logger);
    let s = new_sink(&mut logger);
    Channel::Error.set_stream(&mut logger, s);
    Channel::Debug.set_stream(&mut logger, s);
    set_verbosity(&mut logger, 0);
    log(&mut logger, Channel::Error, 0, "first");
    log(&mut logger, Channel::Debug, 0, "second");
    let out = sink_text(&logger, s);
    assert!(out.contains("Error: first\n"));
    assert!(out.contains("Debug: second\n"));
    assert_eq!(out, "Error: first\nDebug: second\n");
}

#[test]
fn test_idempotent_toggles() {
    // Disabling (or enabling) color twice leaves the state as doing it once
    let mut once = Logger::new();
    disable_color(&mut once);
    let mut twice = Logger::new();
    disable_color(&mut twice);
    disable_color(&mut twice);
    assert_eq!(color_is_enabled(&once), color_is_enabled(&twice));
    assert_eq!(
        Channel::Warning.painted_name(&once),
        Channel::Warning.painted_name(&twice)
    );
    enable_color(&mut once);
    enable_color(&mut twice);
    enable_color(&mut twice);
    assert_eq!(color_is_enabled(&once), color_is_enabled(&twice));
    assert_eq!(
        Channel::Warning.painted_name(&once),
        Channel::Warning.painted_name(&twice)
    );
}

#[test]
fn test_painted_name_plain_when_disabled() {
    // With color disabled the painted name is the bare variant name,
    // whatever color is configured
    let mut logger = Logger::new();
    Channel::Notice.set_color(&mut logger, Color::BrightCyan);
    disable_color(&mut logger);
    assert_eq!(Channel::Notice.painted_name(&logger), "Notice");
}

#[test]
fn test_painted_name_decorates() {
    // With color enabled the painted name carries styling codes around the
    // variant name
    let logger = Logger::new();
    let painted = Channel::Critical.painted_name(&logger);
    assert_ne!(painted, "Critical");
    assert!(painted.contains("Critical"));
    assert!(painted.starts_with("\u{1b}["));
    assert!(painted.ends_with("\u{1b}[0m"));
}

#[test]
fn test_drain_sink() {
    // Draining hands back the accumulated text and empties the sink
    let mut logger = Logger::new();
    disable_color(&mut logger);
    log(&mut logger, Channel::Trace, 0, "kept");
    let drained = drain_sink(&mut logger, 0);
    assert_eq!(drained, "Trace: kept\n");
    assert_eq!(sink_text(&logger, 0), "");
}
