use crate_core::error::ErrorInfo;

#[test]
fn error_info_holds_its_fields() {
    let info = ErrorInfo {
        file: "engine.rs",
        line: 42,
        context: Some("while ticking".to_string()),
        stack_trace: None,
    };
    assert_eq!(info.file, "engine.rs");
    assert_eq!(info.line, 42);
    assert_eq!(info.context.as_deref(), Some("while ticking"));
    assert!(info.stack_trace.is_none());
    assert!(format!("{:?}", info).contains("engine.rs"));
}
