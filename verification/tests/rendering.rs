use abpl::error::{
    cause_limit, fmt_generated_error, fmt_text_chain, fmt_verbose_chain, write_verbose_node, CauseText,
    ErrorHop, ErrorTrace, FormatSpec, SourceLocation, UnserializableError,
};

fn flags(alternate: bool, sign_minus: bool, sign_plus: bool, precision: Option<usize>) -> FormatSpec {
    FormatSpec { alternate, sign_minus, sign_plus, precision }
}

fn cause(message: &str, trace: &ErrorTrace) -> CauseText {
    CauseText { plain: message.to_string(), alternate: write_verbose_node(message, trace) }
}

fn location(file: &str, line: u32, column: u32) -> ErrorTrace {
    ErrorTrace::Location(SourceLocation { file: file.to_string(), line, column })
}

/// `Publish` caused by `Auth` caused by `Token`, as the cause texts that
/// `Publish` sees on its chain.
fn publish_causes() -> Vec<CauseText> {
    vec![cause("auth error", &location("src/auth.rs", 10, 5)), cause("token expired", &ErrorTrace::Empty)]
}

fn render(spec: FormatSpec, message: &str, trace: &ErrorTrace, causes: &[CauseText]) -> String {
    fmt_generated_error(&spec, message, trace, causes)
}

#[test]
fn display_format_modifiers() {
    let trace = ErrorTrace::Backtrace("   0: publish\n".to_string());
    let causes = publish_causes();
    let publish = |spec: FormatSpec| render(spec, "publish failed", &trace, &causes);

    assert_eq!(publish(flags(false, false, false, None)), "publish failed");
    assert_eq!(publish(flags(false, true, false, None)), "publish failed ∵ auth error ∵ token expired");
    assert_eq!(publish(flags(false, false, true, None)), "token expired ∴ auth error ∴ publish failed");
    assert_eq!(publish(flags(false, true, false, Some(2))), "publish failed ∵ auth error");
    assert_eq!(publish(flags(false, false, true, Some(2))), "auth error ∴ publish failed");
}

#[test]
fn alternate_renders_the_own_verbose_block() {
    let trace = location("src/main.rs", 42, 7);
    let text = render(flags(true, false, false, None), "boom", &trace, &publish_causes());
    assert_eq!(text, "error: boom\n @src/main.rs:42:7\n");
}

#[test]
fn verbose_chain_forward_and_reverse() {
    let trace = ErrorTrace::Erased("bt line 1\nbt line 2\n".to_string());
    let causes = publish_causes();
    let forward = render(flags(true, true, false, None), "publish failed", &trace, &causes);
    assert_eq!(
        forward,
        "error: publish failed\nbt line 1\nbt line 2\n\n∵ error: auth error\n     @src/auth.rs:10:5\n\n∵ error: token expired"
    );
    let reverse = render(flags(true, false, true, None), "publish failed", &trace, &causes);
    assert_eq!(
        reverse,
        "error: token expired\n\n∴ error: auth error\n     @src/auth.rs:10:5\n\n∴ error: publish failed\n    bt line 1\n    bt line 2"
    );
    let limited = render(flags(true, true, false, Some(1)), "publish failed", &trace, &causes);
    assert_eq!(limited, "error: publish failed\nbt line 1\nbt line 2");
}

#[test]
fn verbose_chain_leaves_empty_lines_unindented() {
    let causes = vec![CauseText { plain: "x".to_string(), alternate: "head\n\ntail\n\n".to_string() }];
    let text = fmt_verbose_chain("top", &ErrorTrace::Empty, &causes, usize::MAX, false);
    assert_eq!(text, "error: top\n\n∵ head\n\n    tail");
}

#[test]
fn text_chain_depth_limits() {
    let causes = publish_causes();
    assert_eq!(fmt_text_chain("p", &causes, 0, false), "p");
    assert_eq!(fmt_text_chain("p", &causes, 1, true), "p");
    assert_eq!(fmt_text_chain("p", &causes, 3, false), "p ∵ auth error ∵ token expired");
    assert_eq!(fmt_text_chain("p", &causes, 7, true), "token expired ∴ auth error ∴ p");
    assert_eq!(fmt_text_chain("p", &[], usize::MAX, true), "p");
}

#[test]
fn depth_limit_gives_prefix_and_suffix() {
    let causes = publish_causes();
    let full = fmt_text_chain("p", &causes, usize::MAX, false);
    let short = fmt_text_chain("p", &causes, 2, false);
    assert!(full.starts_with(&short));
    let full_rev = fmt_text_chain("p", &causes, usize::MAX, true);
    let short_rev = fmt_text_chain("p", &causes, 2, true);
    assert!(full_rev.ends_with(&short_rev));
    assert_ne!(full, short);
}

#[test]
fn trace_renderings() {
    assert_eq!(ErrorTrace::Empty.render(), "\n");
    assert_eq!(ErrorTrace::default().render(), "\n");
    assert_eq!(location("a.rs", 0, 1234567890).render(), " @a.rs:0:1234567890\n");
    assert_eq!(ErrorTrace::Erased("kept\n".to_string()).render(), "kept\n");
    assert_eq!(ErrorTrace::Erased("closed".to_string()).render(), "closed\n");
    assert_eq!(ErrorTrace::Erased(String::new()).render(), "\n");
    assert_eq!(ErrorTrace::Backtrace("as is".to_string()).render(), "as is");
}

#[test]
fn erased_trace_renders_the_same() {
    let original = location("lib.rs", 3, 9);
    let sent = original.render();
    assert_eq!(ErrorTrace::Erased(sent.clone()).render(), sent);
}

#[test]
fn verbose_node_layout() {
    assert_eq!(write_verbose_node("m", &ErrorTrace::Empty), "error: m\n\n");
}

fn hop(message: &str, kind: &str) -> ErrorHop {
    ErrorHop { message: message.to_string(), kind: kind.to_string() }
}

#[test]
fn from_error_keeps_the_chain() {
    let err = UnserializableError::from_error(vec![
        hop("outer", "Outer"),
        hop("middle", "Middle { code: 2 }"),
        hop("root", "Root"),
    ]);
    assert_eq!(err.error_message, "outer");
    assert_eq!(err.error_kind, "Outer");
    let middle = err.error_cause.as_ref().expect("middle");
    assert_eq!(middle.error_message, "middle");
    assert_eq!(middle.error_kind, "Middle { code: 2 }");
    let root = middle.error_cause.as_ref().expect("root");
    assert_eq!(root.error_message, "root");
    assert!(root.error_cause.is_none());
    assert_eq!(err.display_text(), "outer");
    assert_eq!(err.clone(), err);
}

#[test]
fn from_error_single_hop() {
    let err = UnserializableError::from_error(vec![hop("only", "Only")]);
    assert_eq!(err, UnserializableError { error_message: "only".to_string(), error_kind: "Only".to_string(), error_cause: None });
}

#[test]
fn cause_limit_follows_the_flags() {
    assert_eq!(cause_limit(&flags(false, false, false, None)), 0);
    assert_eq!(cause_limit(&flags(true, false, false, Some(9))), 0);
    assert_eq!(cause_limit(&flags(false, true, false, Some(2))), 1);
    assert_eq!(cause_limit(&flags(true, false, true, Some(0))), 0);
    assert_eq!(cause_limit(&flags(false, false, true, None)), usize::MAX - 1);
    let causes = publish_causes();
    let spec = flags(false, true, false, Some(2));
    assert_eq!(
        render(spec, "p", &ErrorTrace::Empty, &causes),
        render(spec, "p", &ErrorTrace::Empty, &causes[..cause_limit(&spec)])
    );
}
