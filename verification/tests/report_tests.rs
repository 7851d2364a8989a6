use n0_snafu::error::{ForeignError, Formatted, Link};
use n0_snafu::report::{
    cleaned_error_trace_text, error_trace_text, CleanedErrorText, Report,
};

fn chain(texts: &[&str]) -> Vec<String> {
    texts.iter().map(|t| t.to_string()).collect()
}

fn foreign(head: &str, rest: &[&str]) -> ForeignError {
    ForeignError {
        head: Link { text: head.to_string(), formatted: false, backtrace: None },
        rest: rest
            .iter()
            .map(|t| Link { text: t.to_string(), formatted: false, backtrace: None })
            .collect(),
    }
}

#[test]
fn test_error_trace_single_level() {
    let out = error_trace_text(&chain(&["solo"]));
    assert_eq!(out, "solo\n");
}

#[test]
fn test_error_trace_one_cause() {
    let out = error_trace_text(&chain(&["outer", "inner"]));
    assert_eq!(out, "outer\n\nCaused by this error:\n  1: inner\n");
}

#[test]
fn test_error_trace_many_causes() {
    let out = error_trace_text(&chain(&["outer", "mid", "inner"]));
    assert_eq!(
        out,
        "outer\n\nCaused by these errors (recent errors listed first):\n  1: mid\n  2: inner\n"
    );
}

#[test]
fn test_cleaned_trace_strips_repeated_cause_text() {
    let out = cleaned_error_trace_text(&chain(&["A: B", "B"]));
    assert_eq!(
        out,
        "A *\n\nCaused by this error:\n  1: B\n\nNOTE: Some redundant information has been removed from the lines marked with *. Set SNAFU_RAW_ERROR_MESSAGES=1 to disable this behavior.\n"
    );
}

#[test]
fn test_cleaned_trace_non_match_keeps_text() {
    let out = cleaned_error_trace_text(&chain(&["xyz", "B"]));
    assert_eq!(out, "xyz\n\nCaused by this error:\n  1: B\n");
}

#[test]
fn test_cleaned_trace_omits_subsumed_level() {
    // The outer level restates its cause exactly, so it is removed whole.
    let out = cleaned_error_trace_text(&chain(&["B", "B"]));
    assert_eq!(
        out,
        "B\n\nNOTE: Some redundant information has been removed. Set SNAFU_RAW_ERROR_MESSAGES=1 to disable this behavior.\n"
    );
}

#[test]
fn test_cleaned_error_text_iteration() {
    let mut it = CleanedErrorText::new(chain(&["A: B", "B"]));
    assert_eq!(it.next(), Some(("A".to_string(), true)));
    assert_eq!(it.next(), Some(("B".to_string(), false)));
    assert_eq!(it.next(), None);
}

#[test]
fn test_cleaned_error_text_non_match() {
    let mut it = CleanedErrorText::new(chain(&["xyz", "B"]));
    assert_eq!(it.next(), Some(("xyz".to_string(), false)));
    assert_eq!(it.next(), Some(("B".to_string(), false)));
    assert_eq!(it.next(), None);
}

#[test]
fn test_report_ok_exits_clean() {
    let rep: Report<ForeignError> = Report::ok();
    let (status, text) = rep.report(true);
    assert_eq!(status, 0);
    assert_eq!(text, None);
}

#[test]
fn test_report_failure_exits_one_with_text() {
    let rep = Report::from_error(foreign("boom", &[]));
    let (status, text) = rep.report(false);
    assert_eq!(status, 1);
    assert_eq!(text, Some("Error: boom\n".to_string()));
}

#[test]
fn test_report_render_cleans_when_enabled() {
    let rep = Report::from_error(foreign("A: B", &["B"]));
    let raw = rep.render(false);
    assert_eq!(raw, "A: B\n\nCaused by this error:\n  1: B\n");
    let cleaned = rep.render(true);
    assert_eq!(
        cleaned,
        "A *\n\nCaused by this error:\n  1: B\n\nNOTE: Some redundant information has been removed from the lines marked with *. Set SNAFU_RAW_ERROR_MESSAGES=1 to disable this behavior.\n"
    );
}

#[test]
fn test_report_render_twice_is_identical() {
    let rep = Report::from_error(foreign("A: B", &["B"]));
    assert_eq!(rep.render(true), rep.render(true));
    assert_eq!(rep.render(false), rep.render(false));
}

#[test]
fn test_report_capture() {
    let rep: Report<ForeignError> = Report::capture(|| Ok(()));
    assert!(rep.0.is_ok());
    let rep = Report::capture(|| Err(foreign("boom", &[])));
    assert!(rep.0.is_err());
}

#[test]
fn test_report_capture_into_result() {
    let r: Result<u8, Report<ForeignError>> = Report::capture_into_result(|| Ok(3));
    match r {
        Ok(v) => assert_eq!(v, 3),
        Err(_) => panic!("success must pass through unchanged"),
    }
    let r: Result<u8, Report<ForeignError>> =
        Report::capture_into_result(|| Err(foreign("boom", &[])));
    assert!(r.is_err());
}

#[test]
fn test_formatted_exposes_the_chain() {
    let f = foreign("outer", &["mid", "inner"]);
    assert_eq!(f.error_text(), "outer");
    assert_eq!(f.chain_texts(), vec!["outer", "mid", "inner"]);
    assert!(f.backtrace().is_none());
}
