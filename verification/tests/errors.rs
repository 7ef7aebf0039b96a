use tosic_llm::error::{ErrorContext, LlmError, LlmErrorType, WithContext};

#[test]
fn render_leaf_shows_its_description() {
    let e = LlmError::new(LlmErrorType::Generic("boom".to_string()));
    assert_eq!(e.render(), "Error: An error occurred: boom\n");
}

#[test]
fn render_json_leaf_is_transparent() {
    let e = LlmError::new(LlmErrorType::Json("expected value at line 1".to_string()));
    assert_eq!(e.render(), "Error: expected value at line 1\n");
}

#[test]
fn render_empty_leaf_lists_alternatives() {
    let e = LlmError::new(LlmErrorType::Empty {
        value: "format".to_string(),
        expected: vec!["wav".to_string(), "mp3".to_string()],
    });
    assert_eq!(
        e.render(),
        "Error: Value was empty. format, expected one of: [\"wav\", \"mp3\"]\n"
    );
}

#[test]
fn render_annotated_error_keeps_order_and_cause() {
    let base = LlmError::new(LlmErrorType::Io("file gone".to_string()));
    let e = base
        .add_context("reading config".to_string())
        .add_context("starting up".to_string());
    let rendered = e.render();
    assert_eq!(
        rendered,
        "Error: file gone\n\nContext:\n\t- starting up\n\t- reading config\n"
    );
    assert!(rendered.contains("reading config"));
    assert!(rendered.contains("starting up"));
}

#[test]
fn cause_chain_reaches_original_leaf() {
    let base = LlmError::new(LlmErrorType::Parse("bad url".to_string()));
    let e = base
        .add_context("first".to_string())
        .add_context("second".to_string());
    // One step from the error value, then walk the chain to the leaf.
    let mut cause = e.cause_of().unwrap();
    loop {
        match cause.cause_of() {
            Some(next) => cause = next,
            None => break,
        }
    }
    assert!(matches!(cause, LlmErrorType::Parse(d) if d == "bad url"));
}

#[test]
fn cause_of_leaf_exposes_the_leaf_itself() {
    let e = LlmError::new(LlmErrorType::Io("disk".to_string()));
    let c = e.cause_of().unwrap();
    assert!(matches!(c, LlmErrorType::Io(d) if d == "disk"));
    // A leaf kind has no further cause.
    assert!(c.cause_of().is_none());
}

#[test]
fn context_on_ok_passes_through() {
    let r: Result<u32, LlmError> = Ok(7);
    assert_eq!(r.context("unused".to_string()).unwrap(), 7);
}

#[test]
fn context_on_err_wraps() {
    let r: Result<u32, LlmError> = Err(LlmError::new(LlmErrorType::Io("oops".to_string())));
    let e = r.context("while working".to_string()).unwrap_err();
    match e.error_type {
        LlmErrorType::Context { message, source } => {
            assert_eq!(message, "while working");
            assert!(matches!(*source, LlmErrorType::Io(d) if d == "oops"));
        }
        other => panic!("expected a context node, got {:?}", other),
    }
}

#[test]
fn context_on_none_synthesizes_missing_value() {
    let r: Option<u32> = None;
    let e = r.context("wanted a value".to_string()).unwrap_err();
    match e.error_type {
        LlmErrorType::Context { message, source } => {
            assert_eq!(message, "wanted a value");
            match *source {
                LlmErrorType::Empty { value, expected } => {
                    assert_eq!(value, "None");
                    assert!(expected.is_empty());
                }
                other => panic!("expected a missing-value leaf, got {:?}", other),
            }
        }
        other => panic!("expected a context node, got {:?}", other),
    }
}

#[test]
fn with_context_runs_closure_only_on_failure() {
    let ok: Result<u32, LlmError> = Ok(1);
    let r = ok.with_context(|| unreachable!("closure must not run on success"));
    assert_eq!(r.unwrap(), 1);

    let none: Option<u32> = None;
    let e = none.with_context(|| "lazy message".to_string()).unwrap_err();
    assert!(e.render().contains("lazy message"));
}

#[test]
fn new_context_wraps_given_source() {
    let e = LlmError::new_context(
        "outer".to_string(),
        Box::new(LlmErrorType::Reqwest("timeout".to_string())),
    );
    assert_eq!(e.render(), "Error: timeout\n\nContext:\n\t- outer\n");
}

#[test]
fn error_value_lifts_from_kind() {
    let e = LlmError::from(LlmErrorType::Io("nope".to_string()));
    assert!(matches!(e.error_type, LlmErrorType::Io(d) if d == "nope"));
}

#[test]
fn context_on_bare_kind_wraps_it() {
    let r: Result<u32, LlmErrorType> = Err(LlmErrorType::Json("bad".to_string()));
    let e = r.context("decoding payload".to_string()).unwrap_err();
    assert_eq!(e.render(), "Error: bad\n\nContext:\n\t- decoding payload\n");
    let ok: Result<u32, LlmErrorType> = Ok(3);
    assert_eq!(ok.context("unused".to_string()).unwrap(), 3);
}

#[test]
fn error_context_describes_location() {
    let ctx = ErrorContext {
        message: "missing key".to_string(),
        file: "config.rs",
        line: 42,
    };
    assert_eq!(ctx.describe(), "missing key (at config.rs:42)");
}

#[test]
fn error_context_single_digit_line() {
    let ctx = ErrorContext {
        message: "m".to_string(),
        file: "a.rs",
        line: 0,
    };
    assert_eq!(ctx.describe(), "m (at a.rs:0)");
}

#[test]
fn error_context_large_line() {
    let ctx = ErrorContext {
        message: "m".to_string(),
        file: "a.rs",
        line: 90105,
    };
    assert_eq!(ctx.describe(), "m (at a.rs:90105)");
}
