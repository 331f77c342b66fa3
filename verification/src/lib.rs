//! Adapter diagnostics: wrap error values from heterogeneous sources behind a
//! uniform diagnostic interface that reports a category, classification tags,
//! and two textual renderings (a plain description and a markup-capable
//! message).

mod adapters;
mod diagnostic;
mod sinks;

pub use adapters::IoError;
pub use adapters::PicoArgsError;
pub use adapters::StdError;
pub use adapters::pico_text_of;
pub use adapters::lemma_io_error_classification;
pub use adapters::lemma_pico_args_error_classification;
pub use adapters::lemma_std_error_classification;
pub use diagnostic::Diagnostic;
pub use diagnostic::DiagnosticTags;
pub use diagnostic::OwnedDiagnostic;
pub use diagnostic::lemma_clone_preserves_description;
pub use diagnostic::lemma_nonempty_text_renders_nonempty;
pub use sinks::MarkupSink;
pub use sinks::SinkError;
pub use sinks::TextSink;
pub use sinks::write_plain;
