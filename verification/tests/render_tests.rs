use n0_snafu::error::{error_noise_prefixes_exec, Error, ForeignError, Link};
use n0_snafu::frames::{filter_frames, Backtrace, Frame, Verbosity};
use n0_snafu::SpanTrace;

fn frame(name: &str, dependency: bool) -> Frame {
    Frame { name: Some(name.to_string()), dependency }
}

fn quiet_span() -> SpanTrace {
    SpanTrace { captured: false, text: String::new() }
}

#[test]
fn test_filter_hides_dependency_frames_below_full() {
    let frames = vec![frame("app::main", false), frame("dep::work", true)];
    let prefixes = error_noise_prefixes_exec();

    let kept = filter_frames(&frames, &prefixes, Verbosity::Medium);
    assert_eq!(kept.len(), 1);
    assert_eq!(kept[0].name.as_deref(), Some("app::main"));

    let kept = filter_frames(&frames, &prefixes, Verbosity::Minimal);
    assert_eq!(kept.len(), 1);
}

#[test]
fn test_filter_keeps_dependency_frames_at_full() {
    let frames = vec![frame("app::main", false), frame("dep::work", true)];
    let prefixes = error_noise_prefixes_exec();

    let kept = filter_frames(&frames, &prefixes, Verbosity::Full);
    assert_eq!(kept.len(), 2);
    assert_eq!(kept[1].name.as_deref(), Some("dep::work"));
}

#[test]
fn test_filter_always_hides_noise_frames() {
    let frames = vec![
        frame("<n0_snafu::error::Error as app::Formatted>::backtrace", false),
        frame("n0_snafu::error::Error::anyhow", false),
        frame("app::main", false),
    ];
    let prefixes = error_noise_prefixes_exec();

    for v in [Verbosity::Minimal, Verbosity::Medium, Verbosity::Full] {
        let kept = filter_frames(&frames, &prefixes, v);
        assert_eq!(kept.len(), 1);
        assert_eq!(kept[0].name.as_deref(), Some("app::main"));
    }
}

#[test]
fn test_filter_keeps_nameless_frames() {
    let frames = vec![Frame { name: None, dependency: false }];
    let prefixes = error_noise_prefixes_exec();
    let kept = filter_frames(&frames, &prefixes, Verbosity::Medium);
    assert_eq!(kept.len(), 1);
}

#[test]
fn test_debug_text_structure() {
    let e = Error::Message {
        message: None,
        span_trace: quiet_span(),
        source: ForeignError {
            head: Link { text: "c".to_string(), formatted: false, backtrace: None },
            rest: Vec::new(),
        },
        backtrace: None,
    };
    assert_eq!(e.debug_text(Verbosity::Medium), "\n    0: c\n\n\n\n\n\n");
}

#[test]
fn test_debug_text_shows_span_trace_when_captured() {
    let e = Error::Whatever {
        message: Some("m".to_string()),
        span_trace: SpanTrace { captured: true, text: "span stack".to_string() },
        source: None,
        backtrace: None,
    };
    let out = e.debug_text(Verbosity::Medium);
    assert!(out.contains("Span trace:\nspan stack\n"));
}

#[test]
fn test_debug_text_verbosity_governs_dependency_frames() {
    let bt = Backtrace { frames: vec![frame("dep::inner", true)] };
    let e = Error::Source {
        source: ForeignError {
            head: Link { text: "c".to_string(), formatted: true, backtrace: Some(bt) },
            rest: Vec::new(),
        },
        span_trace: quiet_span(),
        backtrace: None,
    };
    let full = e.debug_text(Verbosity::Full);
    assert!(full.contains("  0: dep::inner\n"));
    let medium = e.debug_text(Verbosity::Medium);
    assert!(!medium.contains("dep::inner"));
}

#[test]
fn test_debug_text_twice_is_byte_identical() {
    let e = Error::Message {
        message: Some("m".to_string()),
        span_trace: quiet_span(),
        source: ForeignError {
            head: Link { text: "c".to_string(), formatted: false, backtrace: None },
            rest: Vec::new(),
        },
        backtrace: Some(Backtrace { frames: vec![frame("app::run", false)] }),
    };
    let first = e.debug_text(Verbosity::Full);
    let second = e.debug_text(Verbosity::Full);
    assert_eq!(first, second);
}

#[test]
fn test_stack_skips_backtrace_of_unproven_links() {
    // A link without the formatted-backtrace capability never contributes a
    // backtrace to its node, even if one was recorded beside it.
    let e = Error::Message {
        message: None,
        span_trace: quiet_span(),
        source: ForeignError {
            head: Link {
                text: "c".to_string(),
                formatted: false,
                backtrace: Some(Backtrace { frames: vec![frame("x", false)] }),
            },
            rest: Vec::new(),
        },
        backtrace: None,
    };
    let stack = e.stack();
    assert_eq!(stack.len(), 2);
    assert!(stack[1].0.is_none());
}

#[test]
fn test_accessors_return_captured_data() {
    let bt = Backtrace { frames: vec![frame("app::run", false)] };
    let e = Error::Whatever {
        message: Some("m".to_string()),
        span_trace: SpanTrace { captured: true, text: "st".to_string() },
        source: None,
        backtrace: Some(bt),
    };
    assert_eq!(e.span_trace().text().as_str(), "st");
    let got = e.backtrace().unwrap();
    assert_eq!(got.frames().len(), 1);
    assert_eq!(got.frames()[0].name.as_deref(), Some("app::run"));
}

#[test]
fn test_live_captures_run() {
    // Exercises the real span-trace and backtrace capture paths.
    let st = SpanTrace::capture();
    let _ = st.status_captured();
    let e = Error::without_source("live".to_string());
    let rendered = e.debug_report();
    assert!(!rendered.is_empty());
    assert_eq!(e.stack().len(), 1);
}

#[test]
fn test_anyhow_conversion_records_the_chain() {
    let ah = anyhow::Error::msg("boom");
    let e = Error::anyhow(ah);
    let stack = e.stack();
    assert_eq!(stack.len(), 2);
    assert!(stack[0].1.is_root());
    assert_eq!(stack[1].1.text(), "boom");
    assert_eq!(e.text(), "boom");
}

#[test]
fn test_anyhow_conversion_keeps_every_chain_text() {
    let ah = anyhow::Error::msg("inner cause").context("outer note");
    let e = Error::anyhow(ah);
    assert_eq!(e.text(), "outer note");
    let stack = e.stack();
    assert_eq!(stack.len(), 3);
    assert!(stack[0].1.is_root());
    assert_eq!(stack[1].1.text(), "outer note");
    assert_eq!(stack[2].1.text(), "inner cause");
}

#[test]
fn test_source_head_without_capability_gets_no_backtrace() {
    // The walker honors the recorded capability tag on every link, the head
    // included: no proven capability, no backtrace on the node.
    let e = Error::Source {
        source: ForeignError {
            head: Link {
                text: "c".to_string(),
                formatted: false,
                backtrace: Some(Backtrace { frames: vec![frame("x", false)] }),
            },
            rest: Vec::new(),
        },
        span_trace: quiet_span(),
        backtrace: None,
    };
    let stack = e.stack();
    assert_eq!(stack.len(), 2);
    assert!(stack[1].0.is_none());
}
