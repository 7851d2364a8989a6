use n0_snafu::error::{ForeignError, Link};
use n0_snafu::testerror::{TestError, TestResultExt};

fn fail() -> Result<(), TestError> {
    Err(TestError::without_source("sad face".to_string()))
}

fn my_error() -> ForeignError {
    ForeignError {
        head: Link { text: "A failure".to_string(), formatted: true, backtrace: None },
        rest: Vec::new(),
    }
}

fn fail_my_error() -> Result<(), ForeignError> {
    Err(my_error())
}

fn fail_whatever() -> Result<(), TestError> {
    match fail() {
        Ok(v) => Ok(v),
        Err(e) => Err(TestError::with_source(e, "sad".to_string())),
    }
}

fn fail_whatever_my_error() -> Result<(), TestError> {
    match fail_my_error() {
        Ok(v) => Ok(v),
        Err(e) => Err(TestError::with_source(TestError::from_foreign(e), "sad".to_string())),
    }
}

#[test]
fn testerror_test_anyhow_compat() {
    fn ok() -> anyhow::Result<()> {
        Ok(())
    }

    let r = ok().map_err(TestError::anyhow);
    assert!(r.is_ok());
}

#[test]
fn testerror_test_whatever() {
    assert!(fail().is_err());
    assert!(fail_my_error().is_err());
    assert!(fail_whatever().is_err());
    assert!(fail_whatever_my_error().is_err());
}

#[test]
fn testerror_test_context_none() {
    fn fail_ctx() -> Result<(), TestError> {
        None.context("sad")
    }

    assert!(fail_ctx().is_err());
}

#[test]
fn testerror_test_format_err() {
    fn fail_fmt() -> Result<(), TestError> {
        Err(TestError::without_source(format!("sad: {}", 12)))
    }

    assert!(fail_fmt().is_err());
}

#[test]
fn testerror_context_none_chain_length() {
    let r: Result<(), TestError> = None.context("failed");
    assert!(r.is_err());
    let err = r.unwrap_err();
    assert_eq!(err.stack().len(), 2);
}

#[test]
fn testerror_message_prefixes_cause_text() {
    let foreign = ForeignError {
        head: Link { text: "cause".to_string(), formatted: false, backtrace: None },
        rest: Vec::new(),
    };
    let r: Result<(), ForeignError> = Err(foreign);
    let err = r.context("note").unwrap_err();
    assert_eq!(err.text(), "note: cause");
}

#[test]
fn testerror_rewrap_never_stacks_root_markers() {
    let inner = TestError::without_source("a".to_string());
    let r: Result<(), TestError> = Err(inner);
    let outer = r.context("b").unwrap_err();
    let stack = outer.stack();
    assert_eq!(stack.len(), 3);
    for w in stack.windows(2) {
        assert!(!(w[0].1.is_root() && w[1].1.is_root()));
    }
}

#[test]
fn testerror_anyhow_conversion_records_the_chain() {
    let ah = anyhow::Error::msg("boom");
    let e = TestError::anyhow(ah);
    let stack = e.stack();
    assert_eq!(stack.len(), 2);
    assert!(stack[0].1.is_root());
    assert_eq!(stack[1].1.text(), "boom");
    assert_eq!(e.text(), "boom");
}
