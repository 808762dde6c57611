//! The concrete document-event model.
//!
//! A parsed document is a sequence of structural events. This is the
//! "concrete" instantiation of the document-event union: every field
//! holds a literal value parsed out of a real document. The pattern
//! ("matcher") instantiation with the same discriminants lives in
//! `matcher`.

use vstd::prelude::*;

verus! {

/// The level of a heading.
#[derive(Debug, Clone, Copy, PartialEq, Eq, Structural)]
pub enum HeadingLevel {
    H1,
    H2,
    H3,
    H4,
    H5,
    H6,
}

/// Column alignment of a table.
#[derive(Debug, Clone, Copy, PartialEq, Eq, Structural)]
pub enum Alignment {
    /// No alignment was specified for the column.
    Unaligned,
    Left,
    Center,
    Right,
}

/// How a link or image was written in the source document.
#[derive(Debug, Clone, Copy, PartialEq, Eq, Structural)]
pub enum LinkType {
    Inline,
    Reference,
    ReferenceUnknown,
    Collapsed,
    CollapsedUnknown,
    Shortcut,
    ShortcutUnknown,
    Autolink,
    Email,
}

/// The kind of a concrete code block.
#[derive(Debug, Clone, PartialEq, Eq)]
pub enum DocCodeBlockKind {
    Indented,
    /// A fenced block; the field is the literal fence info string
    /// (usually the language).
    Fenced(String),
}

/// A concrete structural construct that opens a span of events.
#[derive(Debug, Clone, PartialEq, Eq)]
pub enum DocTag {
    /// A paragraph of text and other inline elements.
    Paragraph,
    /// A heading: its level, fragment identifier, and classes.
    Heading(HeadingLevel, Option<String>, Vec<String>),
    BlockQuote,
    /// A code block.
    CodeBlock(DocCodeBlockKind),
    /// A raw HTML block.
    HtmlBlock,
    /// A list; the field is the starting number of an ordered list.
    List(Option<u64>),
    /// A list item.
    Item,
    /// A footnote definition; the field is the footnote's label.
    FootnoteDefinition(String),
    /// A table; the fields are the text alignments of its columns.
    Table(Vec<Alignment>),
    TableHead,
    TableRow,
    TableCell,
    Emphasis,
    Strong,
    Strikethrough,
    /// A link: how it was written, the destination URL and the title.
    Link(LinkType, String, String),
    /// An image: how it was written, the destination URL and the title.
    Image(LinkType, String, String),
}

/// The closing counterpart of a [`DocTag`].
#[derive(Debug, Clone, PartialEq, Eq)]
pub enum DocTagEnd {
    Paragraph,
    Heading(HeadingLevel),
    BlockQuote,
    CodeBlock,
    HtmlBlock,
    /// `true` for an ordered list.
    List(bool),
    Item,
    FootnoteDefinition,
    Table,
    TableHead,
    TableRow,
    TableCell,
    Emphasis,
    Strong,
    Strikethrough,
    Link,
    Image,
}

/// One concrete event of a parsed document.
#[derive(Debug, Clone, PartialEq, Eq)]
pub enum DocEvent {
    /// Start of a tagged element.
    Start(DocTag),
    /// End of a tagged element.
    End(DocTagEnd),
    /// A literal text node.
    Text(String),
    /// An inline code node.
    Code(String),
    /// A raw HTML block line.
    Html(String),
    /// Inline raw HTML.
    InlineHtml(String),
    /// A reference to a footnote, by label.
    FootnoteReference(String),
    SoftBreak,
    HardBreak,
    /// A thematic break.
    Rule,
    /// A task list marker; the field tells whether the task is checked.
    TaskListMarker(bool),
}

impl DocCodeBlockKind {
    pub fn is_indented(&self) -> (r: bool)
        ensures
            r == (self is Indented),
    {
        matches!(*self, DocCodeBlockKind::Indented)
    }

    pub fn is_fenced(&self) -> (r: bool)
        ensures
            r == (self is Fenced),
    {
        matches!(*self, DocCodeBlockKind::Fenced(_))
    }
}

} // verus!
