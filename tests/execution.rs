use boop::executor::{
    check_source_length, setup_result, ExceptionMessage, ExecutionStatus, ExecutorError,
    JSException, SetupStage, TextReplacement, SOURCE_LENGTH_LIMIT,
};

#[test]
fn is_selection_scenario_without_selection() {
    let mut status = ExecutionStatus::begin("foo", None);
    assert!(!status.is_text_selected);
    status.set_full_text("false".to_string());
    assert_eq!(
        TextReplacement::Full("false".to_string()),
        status.into_replacement()
    );
}

#[test]
fn is_selection_scenario_with_selection() {
    let mut status = ExecutionStatus::begin("foo", Some("fo"));
    assert!(status.is_text_selected);
    status.set_full_text("true".to_string());
    assert_eq!(
        TextReplacement::Full("true".to_string()),
        status.into_replacement()
    );
}

#[test]
fn seeds_follow_selection() {
    let status = ExecutionStatus::begin("full", Some("sel"));
    assert_eq!(status.full_text(), "full");
    assert_eq!(status.text(), "sel");
    assert_eq!(status.selection(), "sel");
    let status = ExecutionStatus::begin("full", None);
    assert_eq!(status.text(), "full");
    assert_eq!(status.selection(), "");
    assert_eq!(status.into_replacement(), TextReplacement::Unchanged);
}

#[test]
fn counter_written_into_text_replaces_full_text() {
    for i in 1..10 {
        let mut status = ExecutionStatus::begin("", None);
        status.set_text(i.to_string());
        assert_eq!(TextReplacement::Full(i.to_string()), status.into_replacement());
    }
}

#[test]
fn full_text_wins_over_text() {
    let mut status = ExecutionStatus::begin("abc", Some("b"));
    status.set_text("text".to_string());
    status.set_full_text("full".to_string());
    assert_eq!(status.into_replacement(), TextReplacement::Full("full".to_string()));
    let mut status = ExecutionStatus::begin("abc", None);
    status.set_full_text("full".to_string());
    status.set_text("text".to_string());
    assert_eq!(status.into_replacement(), TextReplacement::Full("full".to_string()));
}

#[test]
fn text_with_selection_replaces_selection() {
    let mut status = ExecutionStatus::begin("abc", Some("b"));
    status.set_text("B".to_string());
    assert_eq!(status.into_replacement(), TextReplacement::Selection("B".to_string()));
}

#[test]
fn selection_wins_over_text() {
    let mut status = ExecutionStatus::begin("abc", Some("b"));
    status.set_text("T".to_string());
    status.set_selection("S".to_string());
    assert_eq!(status.into_replacement(), TextReplacement::Selection("S".to_string()));
}

#[test]
fn insertion_wins_over_everything() {
    let mut status = ExecutionStatus::begin("abc", None);
    status.set_full_text("full".to_string());
    status.insert("x".to_string());
    status.insert("y".to_string());
    assert_eq!(
        status.into_replacement(),
        TextReplacement::Insert(vec!["x".to_string(), "y".to_string()])
    );
}

#[test]
fn writing_the_seed_back_is_no_change() {
    let mut status = ExecutionStatus::begin("abc", None);
    status.set_full_text("abc".to_string());
    status.set_text("abc".to_string());
    assert_eq!(status.into_replacement(), TextReplacement::Unchanged);
}

#[test]
fn posted_messages_overwrite() {
    let mut status = ExecutionStatus::begin("abc", None);
    assert_eq!(status.info(), None);
    status.post_info("one".to_string());
    status.post_info("two".to_string());
    status.post_error("bad".to_string());
    assert_eq!(status.info(), Some(&"two".to_string()));
    assert_eq!(status.error(), Some(&"bad".to_string()));
    assert_eq!(status.into_replacement(), TextReplacement::Unchanged);
}

#[test]
fn oversized_source_is_refused() {
    let source = "0".repeat(1 << 29);
    assert_eq!(
        check_source_length(&source),
        Err(ExecutorError::SourceExceedsMaxLength)
    );
    assert_eq!(
        setup_result(&source, SetupStage::Ready),
        Err(ExecutorError::SourceExceedsMaxLength)
    );
}

#[test]
fn source_length_limit_boundary() {
    assert_eq!(check_source_length("let i = 100;"), Ok(()));
    assert!(SOURCE_LENGTH_LIMIT <= 1 << 29);
}

fn exception(line: usize, cols: (usize, usize)) -> JSException {
    JSException::from_caught(
        "(╯°□°）╯︵ ┻━┻".to_string(),
        Some(ExceptionMessage {
            resource_name: "undefined".to_string(),
            source_line: "            throw \"(╯°□°）╯︵ ┻━┻\";".to_string(),
            line_number: line,
            start_column: cols.0,
            end_column: cols.1,
        }),
    )
}

#[test]
fn exception_keeps_position() {
    assert_eq!(
        exception(2, (12, 13)),
        JSException {
            exception_str: "(╯°□°）╯︵ ┻━┻".to_string(),
            resource_name: Some("undefined".to_string()),
            source_line: Some("            throw \"(╯°□°）╯︵ ┻━┻\";".to_string()),
            line_number: Some(2),
            columns: Some((12, 13)),
        }
    );
    let bare = JSException::from_caught("Woo! Exception!".to_string(), None);
    assert_eq!(
        bare,
        JSException {
            exception_str: "Woo! Exception!".to_string(),
            ..Default::default()
        }
    );
}

#[test]
fn setup_stages_map_to_errors() {
    let e = exception(1, (5, 8));
    assert_eq!(
        setup_result("x", SetupStage::CompileFailed(e.clone())),
        Err(ExecutorError::Compile(e.clone()))
    );
    assert_eq!(
        setup_result("x", SetupStage::RunFailed(e.clone())),
        Err(ExecutorError::Execute(e))
    );
    assert_eq!(setup_result("x", SetupStage::MainMissing), Err(ExecutorError::NoMain));
    assert_eq!(setup_result("x", SetupStage::Ready), Ok(()));
}

#[test]
fn notification_strings() {
    assert_eq!(
        ExecutorError::SourceExceedsMaxLength.into_notification_string(),
        r#"<span foreground="red">ERROR:</span> Script exceeds max length"#
    );
    assert_eq!(
        ExecutorError::NoMain.into_notification_string(),
        r#"<span foreground="red">ERROR:</span> No main function"#
    );
    assert_eq!(
        ExecutorError::Execute(exception(12, (105, 2031))).into_notification_string(),
        r#"<span foreground="red" weight="bold">EXCEPTION:</span> (╯°□°）╯︵ ┻━┻ (12:105 - 12:2031)"#
    );
    assert_eq!(
        ExecutorError::Compile(JSException::from_caught("boom".to_string(), None))
            .into_notification_string(),
        r#"<span foreground="red" weight="bold">EXCEPTION:</span> boom"#
    );
}

#[test]
fn format_exception_zero_position() {
    assert_eq!(
        ExecutorError::format_exception(exception(0, (0, 9))),
        r#"<span foreground="red" weight="bold">EXCEPTION:</span> (╯°□°）╯︵ ┻━┻ (0:0 - 0:9)"#
    );
}
