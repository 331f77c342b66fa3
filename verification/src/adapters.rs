//! Adapter diagnostics that wrap error values from heterogeneous families —
//! any value satisfying std's error contract, an I/O failure, a CLI
//! argument-parsing failure — in newtypes implementing the [`Diagnostic`]
//! contract. Each adapter keeps the wrapped error's rendered text and adds
//! classification metadata; none transforms the semantic content it wraps.

use std::sync::Arc;

use vstd::prelude::*;

use crate::diagnostic::Diagnostic;
use crate::diagnostic::DiagnosticTags;
use crate::sinks::write_plain;
use crate::sinks::MarkupSink;
use crate::sinks::SinkError;
use crate::sinks::TextSink;

verus! {

/// [`std::io::Error`] carries the raw I/O failure an [`IoError`] is built
/// from; its contents stay opaque here.
#[verifier::external_type_specification]
#[verifier::external_body]
pub struct ExIoError(std::io::Error);

/// [`pico_args::Error`] carries the raw parsing failure a [`PicoArgsError`]
/// is built from; its contents stay opaque here.
#[verifier::external_type_specification]
#[verifier::external_body]
pub struct ExPicoArgsError(pico_args::Error);

/// The text `pico_args` renders for a parsing failure. It is a function of
/// the error value alone: each variant's `Display` arm formats only that
/// variant's own fields.
pub uninterp spec fn pico_text_of(e: pico_args::Error) -> Seq<char>;

/// Relies on the `Display` impl of `pico_args::Error`, through
/// `ToString::to_string`: renders the parsing failure as [`pico_text_of`]
/// names it, a pure function of the error value.
#[verifier::external_body]
fn pico_text(error: &pico_args::Error) -> (r: String)
    ensures
        r@ == pico_text_of(*error),
{
    error.to_string()
}

/// Relies on `ToString::to_string`, through the `Display` impl every value
/// of std's error contract must have: renders the error as text. What the
/// text is depends on that impl alone, so nothing is promised of it.
#[verifier::external_body]
fn error_text<E: std::error::Error + Send + Sync + 'static>(error: &E) -> (r: String) {
    error.to_string()
}

/// Relies on `Arc::clone` of std: the new handle points to the same
/// allocation, so it holds the same value.
#[verifier::external_body]
fn share_text(text: &Arc<String>) -> (r: Arc<String>)
    ensures
        r == *text,
{
    Arc::clone(text)
}

/// Relies on `Arc`'s deref of std: the handle yields the shared value.
#[verifier::external_body]
fn read_text(text: &Arc<String>) -> (r: &str)
    ensures
        r@ == text@,
{
    text.as_str()
}

/// Implements [`Diagnostic`] over any type satisfying std's error contract.
/// The wrapped error's rendered text is kept behind a reference-counted,
/// thread-safe handle, so owned clones share it instead of copying it. No
/// category or tags are attached: the adapter has no domain knowledge of
/// what it wraps.
#[derive(Clone, Debug)]
pub struct StdError {
    text: Arc<String>,
}

impl StdError {
    /// Wraps any sharable error value, rendering it once through its own
    /// `Display` impl and keeping the text behind a shared handle. What the
    /// text is depends on that impl alone, so nothing is stated of it here;
    /// [`StdError::from_text`] carries the exact contract.
    pub fn from<E: std::error::Error + Send + Sync + 'static>(error: E) -> (r: StdError) {
        StdError::from_text(error_text(&error))
    }

    /// Wraps already-rendered error text behind a fresh shared handle.
    pub fn from_text(text: String) -> (r: StdError)
        ensures
            r.spec_text() == text@,
    {
        StdError { text: Arc::new(text) }
    }
}

impl Diagnostic for StdError {
    closed spec fn spec_text(&self) -> Seq<char> {
        self.text@
    }

    open spec fn spec_category(&self) -> Option<Seq<char>> {
        None
    }

    open spec fn spec_tags(&self) -> DiagnosticTags {
        DiagnosticTags::spec_empty()
    }

    fn category(&self) -> (r: Option<&'static str>) {
        None
    }

    fn tags(&self) -> (r: DiagnosticTags) {
        DiagnosticTags::empty()
    }

    fn description(&self, sink: &mut TextSink) -> (r: Result<(), SinkError>) {
        sink.write_str(read_text(&self.text))
    }

    fn message(&self, fmt: &mut MarkupSink) -> (r: Result<(), SinkError>) {
        write_plain(fmt, read_text(&self.text))
    }

    fn to_owned_diagnostic(&self) -> (r: Self) {
        StdError { text: share_text(&self.text) }
    }
}

/// Implements [`Diagnostic`] over [`std::io::Error`]. Always classified
/// with the fixed internal-I/O category and the internal tag: an I/O
/// failure originates from the environment and is not user-actionable.
#[derive(Clone, Debug)]
pub struct IoError {
    text: Arc<String>,
}

impl IoError {
    /// Wraps a raw I/O failure, rendering it once through its `Display`
    /// impl and keeping the text behind a shared handle. What the text is
    /// depends on that impl alone, so nothing is stated of it here;
    /// [`IoError::from_text`] carries the exact contract.
    pub fn from(error: std::io::Error) -> (r: IoError) {
        IoError::from_text(error_text(&error))
    }

    /// Wraps already-rendered I/O failure text behind a fresh shared handle.
    pub fn from_text(text: String) -> (r: IoError)
        ensures
            r.spec_text() == text@,
    {
        IoError { text: Arc::new(text) }
    }
}

impl Diagnostic for IoError {
    closed spec fn spec_text(&self) -> Seq<char> {
        self.text@
    }

    open spec fn spec_category(&self) -> Option<Seq<char>> {
        Some("internalError/io"@)
    }

    open spec fn spec_tags(&self) -> DiagnosticTags {
        DiagnosticTags::spec_internal()
    }

    fn category(&self) -> (r: Option<&'static str>) {
        Some("internalError/io")
    }

    fn tags(&self) -> (r: DiagnosticTags) {
        DiagnosticTags::internal()
    }

    fn description(&self, sink: &mut TextSink) -> (r: Result<(), SinkError>) {
        sink.write_str(read_text(&self.text))
    }

    fn message(&self, fmt: &mut MarkupSink) -> (r: Result<(), SinkError>) {
        fmt.write_str(read_text(&self.text))
    }

    fn to_owned_diagnostic(&self) -> (r: Self) {
        IoError { text: share_text(&self.text) }
    }
}

/// Implements [`Diagnostic`] over [`pico_args::Error`]. Always classified
/// with the fixed invalid-flags category and the fixable tag: downstream
/// tooling may attach a corrective suggestion. The rendered text is owned
/// directly, not shared: parsing failures are produced and consumed within
/// a single reporting flow.
#[derive(Clone, Debug)]
pub struct PicoArgsError {
    text: String,
}

impl PicoArgsError {
    /// Wraps a raw argument-parsing failure, rendering it once through its
    /// `Display` impl and taking ownership of the text: exactly the text
    /// `pico_args` renders for this error value.
    pub fn from(error: pico_args::Error) -> (r: PicoArgsError)
        ensures
            r.spec_text() == pico_text_of(error),
    {
        PicoArgsError::from_text(pico_text(&error))
    }

    /// Wraps already-rendered parsing failure text.
    pub fn from_text(text: String) -> (r: PicoArgsError)
        ensures
            r.spec_text() == text@,
    {
        PicoArgsError { text }
    }
}

impl Diagnostic for PicoArgsError {
    closed spec fn spec_text(&self) -> Seq<char> {
        self.text@
    }

    open spec fn spec_category(&self) -> Option<Seq<char>> {
        Some("flags/invalid"@)
    }

    open spec fn spec_tags(&self) -> DiagnosticTags {
        DiagnosticTags::spec_fixable()
    }

    fn category(&self) -> (r: Option<&'static str>) {
        Some("flags/invalid")
    }

    fn tags(&self) -> (r: DiagnosticTags) {
        DiagnosticTags::fixable()
    }

    fn description(&self, sink: &mut TextSink) -> (r: Result<(), SinkError>) {
        sink.write_str(self.text.as_str())
    }

    fn message(&self, fmt: &mut MarkupSink) -> (r: Result<(), SinkError>) {
        fmt.write_str(self.text.as_str())
    }

    fn to_owned_diagnostic(&self) -> (r: Self) {
        PicoArgsError { text: self.text.clone() }
    }
}

/// Law: a generic diagnostic reports no category and the empty tag set,
/// whatever value it wraps.
pub proof fn lemma_std_error_classification(d: &StdError)
    ensures
        d.spec_category() is None,
        d.spec_tags() == DiagnosticTags::spec_empty(),
{
}

/// Law: an I/O diagnostic always reports the fixed internal-I/O category
/// and carries exactly the internal tag, whatever text it wraps.
pub proof fn lemma_io_error_classification(d: &IoError)
    ensures
        d.spec_category() == Some("internalError/io"@),
        d.spec_tags() == DiagnosticTags::spec_internal(),
{
}

/// Law: an argument-parsing diagnostic always reports the fixed
/// invalid-flags category and carries exactly the fixable tag, whatever
/// text it wraps.
pub proof fn lemma_pico_args_error_classification(d: &PicoArgsError)
    ensures
        d.spec_category() == Some("flags/invalid"@),
        d.spec_tags() == DiagnosticTags::spec_fixable(),
{
}

} // verus!
