use n0_snafu::error::{Error, ForeignError, Link, ResultExt};

fn fail() -> Result<(), Error> {
    Err(Error::without_source("sad face".to_string()))
}

// A structured foreign error with display text `A failure`, recorded at the
// boundary with its formatted-backtrace capability.
fn my_error() -> ForeignError {
    ForeignError {
        head: Link { text: "A failure".to_string(), formatted: true, backtrace: None },
        rest: Vec::new(),
    }
}

fn fail_my_error() -> Result<(), ForeignError> {
    Err(my_error())
}

fn fail_whatever() -> Result<(), Error> {
    match fail() {
        Ok(v) => Ok(v),
        Err(e) => Err(Error::with_source(e, "sad".to_string())),
    }
}

fn fail_whatever_my_error() -> Result<(), Error> {
    match fail_my_error() {
        Ok(v) => Ok(v),
        Err(e) => Err(Error::with_source(Error::from_foreign(e), "sad".to_string())),
    }
}

#[test]
fn error_test_anyhow_compat() {
    fn ok() -> anyhow::Result<()> {
        Ok(())
    }

    let r = ok().map_err(Error::anyhow);
    assert!(r.is_ok());
}

#[test]
fn error_test_whatever() {
    assert!(fail().is_err());
    assert!(fail_my_error().is_err());
    assert!(fail_whatever().is_err());
    assert!(fail_whatever_my_error().is_err());
}

#[test]
fn error_test_context_none() {
    fn fail_ctx() -> Result<(), Error> {
        None.context("sad")
    }

    assert!(fail_ctx().is_err());
}

#[test]
fn error_test_format_err() {
    fn fail_fmt() -> Result<(), Error> {
        Err(Error::without_source(format!("sad: {}", 12)))
    }

    assert!(fail_fmt().is_err());
}

fn io_foreign(e: std::io::Error) -> ForeignError {
    ForeignError {
        head: Link { text: e.to_string(), formatted: false, backtrace: None },
        rest: Vec::new(),
    }
}

#[test]
fn test_io_err() {
    fn fail_io() -> std::io::Result<()> {
        Err(std::io::Error::other("sad IO"))
    }

    fn fail_custom() -> Result<(), ForeignError> {
        Ok(())
    }

    fn fail_outer() -> Result<(), Error> {
        fail_io().map_err(io_foreign).e()?;
        fail_custom().map_err(Error::from_foreign)?;
        Ok(())
    }

    let err = fail_outer().unwrap_err();
    assert_eq!(err.text(), "sad IO");
}

#[test]
fn test_message() {
    fn fail_box() -> Result<(), Box<std::io::Error>> {
        Err(Box::new(std::io::Error::other("foo")))
    }

    let my_res = fail_box().map_err(|e| io_foreign(*e)).context("failed");

    let err = my_res.unwrap_err();
    let stack = err.stack();
    assert_eq!(stack.len(), 2);
}

#[test]
fn test_option() {
    fn fail_opt() -> Option<()> {
        None
    }

    let my_res = fail_opt().context("failed");
    assert!(my_res.is_err());

    let err = my_res.unwrap_err();
    let stack = err.stack();
    assert_eq!(stack.len(), 2);
}

#[test]
fn test_context_chain_length_counts_foreign_links() {
    // A foreign chain of three links wrapped with a message: root marker plus
    // the three links.
    let foreign = ForeignError {
        head: Link { text: "outer".to_string(), formatted: false, backtrace: None },
        rest: vec![
            Link { text: "mid".to_string(), formatted: false, backtrace: None },
            Link { text: "inner".to_string(), formatted: true, backtrace: None },
        ],
    };
    let r: Result<(), ForeignError> = Err(foreign);
    let err = r.context("wrapped").unwrap_err();
    let stack = err.stack();
    assert_eq!(stack.len(), 4);
    assert!(stack[0].1.is_root());
    assert_eq!(stack[1].1.text(), "outer");
    assert_eq!(stack[2].1.text(), "mid");
    assert_eq!(stack[3].1.text(), "inner");
}

#[test]
fn test_rewrap_never_stacks_root_markers() {
    let inner = Error::without_source("a".to_string());
    let r: Result<(), Error> = Err(inner);
    let outer = r.context("b").unwrap_err();
    let stack = outer.stack();
    assert_eq!(stack.len(), 3);
    for w in stack.windows(2) {
        assert!(!(w[0].1.is_root() && w[1].1.is_root()));
    }
    assert!(stack[0].1.is_root());
    assert_eq!(stack[1].1.text(), "a");
    assert!(stack[2].1.is_root());
}

#[test]
fn test_no_message_keeps_cause_text() {
    // The context-free wrap adds no synthetic prefix.
    let foreign = ForeignError {
        head: Link { text: "just the cause".to_string(), formatted: false, backtrace: None },
        rest: Vec::new(),
    };
    let r: Result<(), ForeignError> = Err(foreign);
    let err = r.e().unwrap_err();
    assert_eq!(err.text(), "just the cause");
}

#[test]
fn test_message_prefixes_cause_text() {
    let foreign = ForeignError {
        head: Link { text: "cause".to_string(), formatted: false, backtrace: None },
        rest: Vec::new(),
    };
    let r: Result<(), ForeignError> = Err(foreign);
    let err = r.context("note").unwrap_err();
    assert_eq!(err.text(), "note: cause");
}

#[test]
fn test_with_context_computes_message_lazily() {
    let r: Result<(), Error> = Err(Error::without_source("inner".to_string()));
    let err = r.with_context(|| "lazy".to_string()).unwrap_err();
    assert_eq!(err.text(), "lazy: inner");

    let ok: Option<u8> = Some(7);
    let kept = ok.with_context(|| "unused".to_string());
    match kept {
        Ok(v) => assert_eq!(v, 7),
        Err(_) => panic!("success must pass through unchanged"),
    }
}

#[test]
fn test_whatever_text_fallbacks() {
    let bare = Error::Whatever {
        message: None,
        span_trace: n0_snafu::SpanTrace::capture(),
        source: None,
        backtrace: None,
    };
    assert_eq!(bare.text(), "Error");

    let nested = Error::Whatever {
        message: None,
        span_trace: n0_snafu::SpanTrace::capture(),
        source: Some(Box::new(Error::without_source("deep".to_string()))),
        backtrace: None,
    };
    assert_eq!(nested.text(), "deep");
}
