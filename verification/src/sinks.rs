//! Output sinks for the two rendering channels of a diagnostic: a plain-text
//! channel for logs and traces, and a markup-capable channel for interactive
//! terminal rendering. Both channels buffer the text they are given; a sink
//! can also model a destination that refuses writes (for instance one that
//! was closed), so that callers can reason about write failures.

use vstd::prelude::*;
use vstd::string::StringExecFns;

verus! {

/// Failure of a write into a sink: the destination refused the text.
/// This is the only failure the rendering operations can propagate.
#[derive(Clone, Copy, Debug, PartialEq, Eq, Structural)]
pub struct SinkError;

/// A plain-text sink: the destination of the `description` channel.
pub struct TextSink {
    content: String,
    accepting: bool,
}

impl TextSink {
    /// The text written into this sink so far.
    pub closed spec fn spec_content(&self) -> Seq<char> {
        self.content@
    }

    /// Whether the destination still accepts writes.
    pub closed spec fn spec_accepting(&self) -> bool {
        self.accepting
    }

    /// An empty sink whose writes succeed.
    pub fn new() -> (r: TextSink)
        ensures
            r.spec_accepting(),
            r.spec_content() == Seq::<char>::empty(),
    {
        TextSink { content: String::new(), accepting: true }
    }

    /// An empty sink whose destination fails every write.
    pub fn failing() -> (r: TextSink)
        ensures
            !r.spec_accepting(),
            r.spec_content() == Seq::<char>::empty(),
    {
        TextSink { content: String::new(), accepting: false }
    }

    /// Appends `text` to the sink; fails exactly when the destination no
    /// longer accepts writes, in which case the content is unchanged.
    pub fn write_str(&mut self, text: &str) -> (r: Result<(), SinkError>)
        ensures
            old(self).spec_accepting() ==> r is Ok
                && final(self).spec_content() == old(self).spec_content() + text@
                && final(self).spec_accepting(),
            !old(self).spec_accepting() ==> r is Err
                && final(self).spec_content() == old(self).spec_content()
                && !final(self).spec_accepting(),
    {
        if self.accepting {
            self.content.append(text);
            Ok(())
        } else {
            Err(SinkError)
        }
    }

    /// The buffered text.
    pub fn as_str(&self) -> (r: &str)
        ensures
            r@ == self.spec_content(),
    {
        self.content.as_str()
    }
}

/// A markup-capable sink: the destination of the `message` channel. It
/// accepts plain text exactly like [`TextSink`]; the diagnostics in this
/// crate only ever emit plain text into it, so richer markup directives are
/// out of its scope.
pub struct MarkupSink {
    content: String,
    accepting: bool,
}

impl MarkupSink {
    /// The text written into this sink so far.
    pub closed spec fn spec_content(&self) -> Seq<char> {
        self.content@
    }

    /// Whether the destination still accepts writes.
    pub closed spec fn spec_accepting(&self) -> bool {
        self.accepting
    }

    /// An empty sink whose writes succeed.
    pub fn new() -> (r: MarkupSink)
        ensures
            r.spec_accepting(),
            r.spec_content() == Seq::<char>::empty(),
    {
        MarkupSink { content: String::new(), accepting: true }
    }

    /// An empty sink whose destination fails every write.
    pub fn failing() -> (r: MarkupSink)
        ensures
            !r.spec_accepting(),
            r.spec_content() == Seq::<char>::empty(),
    {
        MarkupSink { content: String::new(), accepting: false }
    }

    /// Writes `text` verbatim, with no markup directives; fails exactly when
    /// the destination no longer accepts writes, in which case the content is
    /// unchanged.
    pub fn write_str(&mut self, text: &str) -> (r: Result<(), SinkError>)
        ensures
            old(self).spec_accepting() ==> r is Ok
                && final(self).spec_content() == old(self).spec_content() + text@
                && final(self).spec_accepting(),
            !old(self).spec_accepting() ==> r is Err
                && final(self).spec_content() == old(self).spec_content()
                && !final(self).spec_accepting(),
    {
        if self.accepting {
            self.content.append(text);
            Ok(())
        } else {
            Err(SinkError)
        }
    }

    /// The buffered text.
    pub fn as_str(&self) -> (r: &str)
        ensures
            r@ == self.spec_content(),
    {
        self.content.as_str()
    }
}

/// Console-display bridge: lets a value that only knows plain textual
/// display participate in the markup-capable message channel, by forwarding
/// its rendered text verbatim with no markup directives applied.
pub fn write_plain(fmt: &mut MarkupSink, text: &str) -> (r: Result<(), SinkError>)
    ensures
        old(fmt).spec_accepting() ==> r is Ok
            && final(fmt).spec_content() == old(fmt).spec_content() + text@
            && final(fmt).spec_accepting(),
        !old(fmt).spec_accepting() ==> r is Err
            && final(fmt).spec_content() == old(fmt).spec_content()
            && !final(fmt).spec_accepting(),
{
    fmt.write_str(text)
}

} // verus!
