//! The diagnostic capability contract: the polymorphic interface every
//! error-like value must satisfy to participate in reporting. A diagnostic
//! exposes a category identifier, classification tags, and two textual
//! renderings — a plain description for logs and a markup-capable message
//! for interactive output — together with an explicit owned-clone operation
//! so that consumers can duplicate a diagnostic without knowing its concrete
//! adapter type.

use vstd::prelude::*;

use crate::adapters::IoError;
use crate::adapters::PicoArgsError;
use crate::adapters::StdError;
use crate::sinks::MarkupSink;
use crate::sinks::SinkError;
use crate::sinks::TextSink;

verus! {

/// Classification flags attached to a diagnostic, guiding downstream
/// rendering: `internal` marks failures of the runtime or environment that
/// are not user-actionable; `fixable` marks failures where a corrective
/// suggestion is plausible.
#[derive(Clone, Copy, Debug, PartialEq, Eq, Structural)]
pub struct DiagnosticTags {
    pub internal: bool,
    pub fixable: bool,
}

impl DiagnosticTags {
    /// No classification at all.
    pub open spec fn spec_empty() -> DiagnosticTags {
        DiagnosticTags { internal: false, fixable: false }
    }

    /// Exactly the internal flag.
    pub open spec fn spec_internal() -> DiagnosticTags {
        DiagnosticTags { internal: true, fixable: false }
    }

    /// Exactly the fixable flag.
    pub open spec fn spec_fixable() -> DiagnosticTags {
        DiagnosticTags { internal: false, fixable: true }
    }

    /// The empty set of tags.
    pub fn empty() -> (r: DiagnosticTags)
        ensures
            r == DiagnosticTags::spec_empty(),
    {
        DiagnosticTags { internal: false, fixable: false }
    }

    /// The set holding only the internal flag.
    pub fn internal() -> (r: DiagnosticTags)
        ensures
            r == DiagnosticTags::spec_internal(),
    {
        DiagnosticTags { internal: true, fixable: false }
    }

    /// The set holding only the fixable flag.
    pub fn fixable() -> (r: DiagnosticTags)
        ensures
            r == DiagnosticTags::spec_fixable(),
    {
        DiagnosticTags { internal: false, fixable: true }
    }
}

/// The capability contract of a diagnostic. Implementations are modelled by
/// three spec-level attributes: the plain text they render, their category
/// identifier, and their classification tags. Every operation is read-only;
/// the only failure any of them can propagate is a write failure of the
/// caller-supplied sink.
pub trait Diagnostic: Sized {
    /// The plain text this diagnostic renders on both channels.
    spec fn spec_text(&self) -> Seq<char>;

    /// The category identifier grouping this diagnostic, if any.
    spec fn spec_category(&self) -> Option<Seq<char>>;

    /// The classification tags of this diagnostic.
    spec fn spec_tags(&self) -> DiagnosticTags;

    /// The static category identifier of this diagnostic, used to group and
    /// filter diagnostics by subsystem; `None` for unclassified diagnostics.
    fn category(&self) -> (r: Option<&'static str>)
        ensures
            match r {
                Some(c) => self.spec_category() == Some(c@),
                None => self.spec_category() is None,
            },
    ;

    /// The classification tags of this diagnostic; the empty set for
    /// unclassified diagnostics.
    fn tags(&self) -> (r: DiagnosticTags)
        ensures
            r == self.spec_tags(),
    ;

    /// Writes the plain, locale-agnostic representation into `sink`. On an
    /// accepting sink this always succeeds and appends exactly the
    /// diagnostic's text; it fails only when the sink itself fails, leaving
    /// the sink's content unchanged.
    fn description(&self, sink: &mut TextSink) -> (r: Result<(), SinkError>)
        ensures
            old(sink).spec_accepting() ==> r is Ok
                && final(sink).spec_content() == old(sink).spec_content() + self.spec_text()
                && final(sink).spec_accepting(),
            !old(sink).spec_accepting() ==> r is Err
                && final(sink).spec_content() == old(sink).spec_content(),
    ;

    /// Writes the markup-capable representation into `fmt`. The adapters of
    /// this crate emit the same text on this channel as on the description
    /// channel. On an accepting sink this always succeeds and appends
    /// exactly the diagnostic's text; it fails only when the sink itself
    /// fails, leaving the sink's content unchanged.
    fn message(&self, fmt: &mut MarkupSink) -> (r: Result<(), SinkError>)
        ensures
            old(fmt).spec_accepting() ==> r is Ok
                && final(fmt).spec_content() == old(fmt).spec_content() + self.spec_text()
                && final(fmt).spec_accepting(),
            !old(fmt).spec_accepting() ==> r is Err
                && final(fmt).spec_content() == old(fmt).spec_content(),
    ;

    /// An owned, independently droppable diagnostic with the same text,
    /// category and tags as this one. Consumers hold diagnostics behind the
    /// erased [`OwnedDiagnostic`] sum, whose values cannot be duplicated by
    /// ordinary copy; this explicit cloning operation, which the sum
    /// forwards to the wrapped adapter, duplicates them all the same.
    fn to_owned_diagnostic(&self) -> (r: Self)
        ensures
            r.spec_text() == self.spec_text(),
            r.spec_category() == self.spec_category(),
            r.spec_tags() == self.spec_tags(),
    ;
}

/// A diagnostic whose concrete adapter type has been erased: the closed sum
/// of the adapters of this crate, dispatching every capability to the
/// wrapped adapter. This is what `to_owned_diagnostic` hands out, and what
/// consumers store when they need to keep diagnostics of mixed origin.
#[derive(Clone, Debug)]
pub enum OwnedDiagnostic {
    Std(StdError),
    Io(IoError),
    PicoArgs(PicoArgsError),
}

impl Diagnostic for OwnedDiagnostic {
    open spec fn spec_text(&self) -> Seq<char> {
        match self {
            OwnedDiagnostic::Std(d) => d.spec_text(),
            OwnedDiagnostic::Io(d) => d.spec_text(),
            OwnedDiagnostic::PicoArgs(d) => d.spec_text(),
        }
    }

    open spec fn spec_category(&self) -> Option<Seq<char>> {
        match self {
            OwnedDiagnostic::Std(d) => d.spec_category(),
            OwnedDiagnostic::Io(d) => d.spec_category(),
            OwnedDiagnostic::PicoArgs(d) => d.spec_category(),
        }
    }

    open spec fn spec_tags(&self) -> DiagnosticTags {
        match self {
            OwnedDiagnostic::Std(d) => d.spec_tags(),
            OwnedDiagnostic::Io(d) => d.spec_tags(),
            OwnedDiagnostic::PicoArgs(d) => d.spec_tags(),
        }
    }

    fn category(&self) -> (r: Option<&'static str>) {
        match self {
            OwnedDiagnostic::Std(d) => d.category(),
            OwnedDiagnostic::Io(d) => d.category(),
            OwnedDiagnostic::PicoArgs(d) => d.category(),
        }
    }

    fn tags(&self) -> (r: DiagnosticTags) {
        match self {
            OwnedDiagnostic::Std(d) => d.tags(),
            OwnedDiagnostic::Io(d) => d.tags(),
            OwnedDiagnostic::PicoArgs(d) => d.tags(),
        }
    }

    fn description(&self, sink: &mut TextSink) -> (r: Result<(), SinkError>) {
        match self {
            OwnedDiagnostic::Std(d) => d.description(sink),
            OwnedDiagnostic::Io(d) => d.description(sink),
            OwnedDiagnostic::PicoArgs(d) => d.description(sink),
        }
    }

    fn message(&self, fmt: &mut MarkupSink) -> (r: Result<(), SinkError>) {
        match self {
            OwnedDiagnostic::Std(d) => d.message(fmt),
            OwnedDiagnostic::Io(d) => d.message(fmt),
            OwnedDiagnostic::PicoArgs(d) => d.message(fmt),
        }
    }

    fn to_owned_diagnostic(&self) -> (r: Self) {
        match self {
            OwnedDiagnostic::Std(d) => OwnedDiagnostic::Std(d.to_owned_diagnostic()),
            OwnedDiagnostic::Io(d) => OwnedDiagnostic::Io(d.to_owned_diagnostic()),
            OwnedDiagnostic::PicoArgs(d) => OwnedDiagnostic::PicoArgs(d.to_owned_diagnostic()),
        }
    }
}

/// Law: an owned clone writes the same description as the diagnostic it was
/// cloned from. `to_owned_diagnostic` preserves the text model, and
/// `description` appends exactly that model to an accepting sink, so the
/// clone and the original extend equal sink contents to equal sink contents.
pub proof fn lemma_clone_preserves_description<D: Diagnostic>(
    original: &D,
    clone: &D,
    content: Seq<char>,
)
    requires
        clone.spec_text() == original.spec_text(),
    ensures
        content + clone.spec_text() == content + original.spec_text(),
{
}

/// Law: rendering a diagnostic with non-empty text into an accepting sink
/// leaves the sink non-empty. Both `description` and `message` append the
/// diagnostic's text to the sink's content, whose length then exceeds zero.
pub proof fn lemma_nonempty_text_renders_nonempty<D: Diagnostic>(d: &D, content: Seq<char>)
    requires
        d.spec_text().len() > 0,
    ensures
        (content + d.spec_text()).len() > 0,
{
}

} // verus!
