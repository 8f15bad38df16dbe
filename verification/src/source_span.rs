//! Spans: a slice of the source text together with where it lies.

use crate::boundary::slice_text;
use vstd::prelude::*;
use vstd::string::StringSliceAdditionalSpecFns;
use vstd::utf8::*;

verus! {

/// A slice of source text and its position. The span borrows both its own text
/// and the whole source; it owns neither.
#[derive(Eq, PartialEq, Copy, Clone, Debug)]
pub struct SourceSpan<'a> {
    /// The text of the span.
    pub span: &'a str,
    /// The whole source that the span lies in.
    pub full_source_text: &'a str,
    /// The offset of the span's first byte in the source.
    pub byte_offset: usize,
    /// The line of the span's first byte, counted from 0.
    pub line: usize,
    /// The column of the span's first byte: the number of bytes between the
    /// start of its line and it.
    pub column: usize,
}

/// What a span stands for: its bytes, the bytes of its source, and its
/// position.
pub struct SpanView {
    pub text: Seq<u8>,
    pub source: Seq<u8>,
    pub byte_offset: nat,
    pub line: nat,
    pub column: nat,
}

impl SpanView {
    /// The offset just after the span's last byte.
    pub open spec fn end(self) -> nat {
        self.byte_offset + self.text.len()
    }

    /// The text is the part of the source that starts at the offset, and it
    /// starts and ends between characters. The source is no longer than a
    /// text in memory can be.
    pub open spec fn wf(self) -> bool {
        &&& self.source.len() <= usize::MAX
        &&& self.end() <= self.source.len()
        &&& self.text == self.source.subrange(self.byte_offset as int, self.end() as int)
        &&& is_char_boundary(self.source, self.byte_offset as int)
        &&& is_char_boundary(self.source, self.end() as int)
    }

    /// The smallest span that covers both `a` and `b`, with the line and
    /// column of the one that starts first (of `a` where both start together).
    pub open spec fn merged(a: SpanView, b: SpanView) -> SpanView {
        let first = if a.byte_offset <= b.byte_offset {
            a
        } else {
            b
        };
        let end = if a.end() >= b.end() {
            a.end()
        } else {
            b.end()
        };
        SpanView {
            text: first.source.subrange(first.byte_offset as int, end as int),
            source: first.source,
            byte_offset: first.byte_offset,
            line: first.line,
            column: first.column,
        }
    }
}

impl<'a> View for SourceSpan<'a> {
    type V = SpanView;

    open spec fn view(&self) -> SpanView {
        SpanView {
            text: self.span.spec_bytes(),
            source: self.full_source_text.spec_bytes(),
            byte_offset: self.byte_offset as nat,
            line: self.line as nat,
            column: self.column as nat,
        }
    }
}

impl<'a> SourceSpan<'a> {
    /// The span's text is the slice of its source at its offset.
    pub open spec fn wf(&self) -> bool {
        self@.wf()
    }

    /// The text of the span.
    pub fn text(&self) -> (t: &'a str)
        ensures
            t == self.span,
    {
        self.span
    }

    /// The smallest span that covers both `s1` and `s2`. The two must lie in
    /// the same source.
    pub fn new_merged(s1: &SourceSpan<'a>, s2: &SourceSpan<'a>) -> (m: SourceSpan<'a>)
        requires
            s1.wf(),
            s2.wf(),
            s1@.source == s2@.source,
        ensures
            m@ == SpanView::merged(s1@, s2@),
            m.wf(),
    {
        let end_a = s1.byte_offset + s1.span.len();
        let end_b = s2.byte_offset + s2.span.len();
        let end = if end_a >= end_b {
            end_a
        } else {
            end_b
        };
        let first = if s1.byte_offset <= s2.byte_offset {
            s1
        } else {
            s2
        };
        SourceSpan {
            span: slice_text(first.full_source_text, first.byte_offset, end),
            full_source_text: first.full_source_text,
            byte_offset: first.byte_offset,
            line: first.line,
            column: first.column,
        }
    }
}

} // verus!
