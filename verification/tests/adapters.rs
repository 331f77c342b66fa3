use rome_diagnostics::Diagnostic;
use rome_diagnostics::DiagnosticTags;
use rome_diagnostics::IoError;
use rome_diagnostics::MarkupSink;
use rome_diagnostics::OwnedDiagnostic;
use rome_diagnostics::PicoArgsError;
use rome_diagnostics::StdError;
use rome_diagnostics::TextSink;
use rome_diagnostics::write_plain;

#[derive(Debug, Clone)]
struct DivideByZero;

impl std::fmt::Display for DivideByZero {
    fn fmt(&self, f: &mut std::fmt::Formatter<'_>) -> std::fmt::Result {
        f.write_str("divide by zero")
    }
}

impl std::error::Error for DivideByZero {}

fn description_of<D: Diagnostic>(d: &D) -> String {
    let mut sink = TextSink::new();
    let r = d.description(&mut sink);
    assert!(r.is_ok());
    sink.as_str().to_owned()
}

fn message_of<D: Diagnostic>(d: &D) -> String {
    let mut fmt = MarkupSink::new();
    let r = d.message(&mut fmt);
    assert!(r.is_ok());
    fmt.as_str().to_owned()
}

#[test]
fn io_failure_scenario() {
    let raw = std::io::Error::new(std::io::ErrorKind::Other, "file not found");
    let d = IoError::from(raw);
    assert_eq!(description_of(&d), "file not found");
    assert_eq!(d.category(), Some("internalError/io"));
    assert_eq!(d.tags(), DiagnosticTags { internal: true, fixable: false });
}

#[test]
fn cli_parsing_scenario() {
    let d = PicoArgsError::from_text(String::from("missing value for --output"));
    assert_eq!(d.category(), Some("flags/invalid"));
    assert_eq!(d.tags(), DiagnosticTags { internal: false, fixable: true });
    assert_eq!(message_of(&d), "missing value for --output");
}

#[test]
fn pico_args_real_error_text() {
    let raw = pico_args::Error::OptionWithoutAValue("--output");
    let d = PicoArgsError::from(raw);
    assert_eq!(
        description_of(&d),
        "the '--output' option doesn't have an associated value"
    );
    assert_eq!(message_of(&d), "the '--output' option doesn't have an associated value");
}

#[test]
fn pico_args_missing_argument_text() {
    let d = PicoArgsError::from(pico_args::Error::MissingArgument);
    assert_eq!(description_of(&d), "free-standing argument is missing");
    assert_eq!(d.category(), Some("flags/invalid"));
}

#[test]
fn generic_clone_outlives_original() {
    let original = StdError::from(DivideByZero);
    let clone = original.to_owned_diagnostic();
    drop(original);
    assert_eq!(description_of(&clone), "divide by zero");
}

#[test]
fn std_error_clone_preserves_description() {
    let original = StdError::from(DivideByZero);
    let clone = original.to_owned_diagnostic();
    assert_eq!(description_of(&clone), description_of(&original));
}

#[test]
fn io_error_clone_preserves_description() {
    let raw = std::io::Error::new(std::io::ErrorKind::Other, "disk unplugged");
    let original = IoError::from(raw);
    let clone = original.to_owned_diagnostic();
    assert_eq!(description_of(&clone), description_of(&original));
    assert_eq!(clone.category(), original.category());
    assert_eq!(clone.tags(), original.tags());
}

#[test]
fn pico_args_error_clone_preserves_description() {
    let original = PicoArgsError::from(pico_args::Error::NonUtf8Argument);
    let clone = original.to_owned_diagnostic();
    assert_eq!(description_of(&clone), description_of(&original));
    assert_eq!(clone.category(), original.category());
    assert_eq!(clone.tags(), original.tags());
}

#[test]
fn io_error_fixed_classification() {
    for text in ["a", "broken pipe", "anything at all"] {
        let d = IoError::from_text(String::from(text));
        assert_eq!(d.category(), Some("internalError/io"));
        let tags = d.tags();
        assert!(tags.internal);
        assert!(!tags.fixable);
    }
}

#[test]
fn pico_args_error_fixed_classification() {
    for text in ["a", "bad flag", "anything at all"] {
        let d = PicoArgsError::from_text(String::from(text));
        assert_eq!(d.category(), Some("flags/invalid"));
        let tags = d.tags();
        assert!(tags.fixable);
        assert!(!tags.internal);
    }
}

#[test]
fn std_error_default_classification() {
    for text in ["a", "divide by zero", "anything at all"] {
        let d = StdError::from_text(String::from(text));
        assert_eq!(d.category(), None);
        assert_eq!(d.tags(), DiagnosticTags { internal: false, fixable: false });
    }
}

#[test]
fn both_channels_nonempty_for_nonempty_text() {
    let io = IoError::from_text(String::from("file not found"));
    let pico = PicoArgsError::from_text(String::from("bad flag"));
    let std_err = StdError::from_text(String::from("divide by zero"));
    assert!(!description_of(&io).is_empty());
    assert!(!message_of(&io).is_empty());
    assert!(!description_of(&pico).is_empty());
    assert!(!message_of(&pico).is_empty());
    assert!(!description_of(&std_err).is_empty());
    assert!(!message_of(&std_err).is_empty());
}

#[test]
fn empty_text_renders_empty() {
    let d = StdError::from_text(String::new());
    assert_eq!(description_of(&d), "");
    assert_eq!(message_of(&d), "");
}

#[test]
fn failing_sink_fails_description() {
    let d = IoError::from_text(String::from("file not found"));
    let mut sink = TextSink::failing();
    let r = d.description(&mut sink);
    assert!(r.is_err());
    assert_eq!(sink.as_str(), "");
}

#[test]
fn failing_sink_fails_message() {
    let d = PicoArgsError::from_text(String::from("bad flag"));
    let mut fmt = MarkupSink::failing();
    let r = d.message(&mut fmt);
    assert!(r.is_err());
    assert_eq!(fmt.as_str(), "");
}

#[test]
fn owned_diagnostic_dispatches_capabilities() {
    let io = OwnedDiagnostic::Io(IoError::from_text(String::from("file not found")));
    let pico = OwnedDiagnostic::PicoArgs(PicoArgsError::from_text(String::from("bad flag")));
    let generic = OwnedDiagnostic::Std(StdError::from_text(String::from("divide by zero")));

    assert_eq!(io.category(), Some("internalError/io"));
    assert_eq!(pico.category(), Some("flags/invalid"));
    assert_eq!(generic.category(), None);

    assert!(io.tags().internal);
    assert!(pico.tags().fixable);
    assert_eq!(generic.tags(), DiagnosticTags { internal: false, fixable: false });

    assert_eq!(description_of(&io), "file not found");
    assert_eq!(message_of(&pico), "bad flag");

    let clone = io.to_owned_diagnostic();
    assert_eq!(description_of(&clone), "file not found");
    assert_eq!(clone.category(), Some("internalError/io"));
}

#[test]
fn write_plain_forwards_verbatim() {
    let mut fmt = MarkupSink::new();
    assert!(write_plain(&mut fmt, "plain text, no markup").is_ok());
    assert_eq!(fmt.as_str(), "plain text, no markup");

    let mut broken = MarkupSink::failing();
    assert!(write_plain(&mut broken, "lost").is_err());
    assert_eq!(broken.as_str(), "");
}

#[test]
fn sink_accumulates_writes() {
    let mut sink = TextSink::new();
    assert!(sink.write_str("file ").is_ok());
    assert!(sink.write_str("not found").is_ok());
    assert_eq!(sink.as_str(), "file not found");
}
