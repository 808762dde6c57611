//! Markdown documents as event sequences: the file types and the
//! spec-level model of an event sequence. Turning markdown text into
//! events and back is the host edge's job; the runtime's logic works
//! on the events alone.

use vstd::prelude::*;

use crate::errors::Error;
use crate::events::{
    Alignment, DocCodeBlockKind, DocEvent, DocTag, DocTagEnd, HeadingLevel, LinkType,
};

verus! {

/// The mathematical model of a code-block kind.
pub enum CodeKindModel {
    Indented,
    Fenced(Seq<char>),
}

/// The mathematical model of an opening tag: every literal string as a
/// character sequence.
pub enum DocTagModel {
    Paragraph,
    Heading(HeadingLevel, Option<Seq<char>>, Seq<Seq<char>>),
    BlockQuote,
    CodeBlock(CodeKindModel),
    HtmlBlock,
    List(Option<u64>),
    Item,
    FootnoteDefinition(Seq<char>),
    Table(Seq<Alignment>),
    TableHead,
    TableRow,
    TableCell,
    Emphasis,
    Strong,
    Strikethrough,
    Link(LinkType, Seq<char>, Seq<char>),
    Image(LinkType, Seq<char>, Seq<char>),
}

/// The mathematical model of one document event.
pub enum DocEventModel {
    Start(DocTagModel),
    End(DocTagEnd),
    Text(Seq<char>),
    Code(Seq<char>),
    Html(Seq<char>),
    InlineHtml(Seq<char>),
    FootnoteReference(Seq<char>),
    SoftBreak,
    HardBreak,
    Rule,
    TaskListMarker(bool),
}

/// The model of a code-block kind.
pub open spec fn code_kind_model(k: DocCodeBlockKind) -> CodeKindModel {
    match k {
        DocCodeBlockKind::Indented => CodeKindModel::Indented,
        DocCodeBlockKind::Fenced(s) => CodeKindModel::Fenced(s@),
    }
}

/// The model of an opening tag.
pub open spec fn doc_tag_model(t: DocTag) -> DocTagModel {
    match t {
        DocTag::Paragraph => DocTagModel::Paragraph,
        DocTag::Heading(l, id, cls) => DocTagModel::Heading(
            l,
            match id {
                Some(s) => Some(s@),
                None => None,
            },
            cls.deep_view(),
        ),
        DocTag::BlockQuote => DocTagModel::BlockQuote,
        DocTag::CodeBlock(k) => DocTagModel::CodeBlock(code_kind_model(k)),
        DocTag::HtmlBlock => DocTagModel::HtmlBlock,
        DocTag::List(n) => DocTagModel::List(n),
        DocTag::Item => DocTagModel::Item,
        DocTag::FootnoteDefinition(s) => DocTagModel::FootnoteDefinition(s@),
        DocTag::Table(a) => DocTagModel::Table(a@),
        DocTag::TableHead => DocTagModel::TableHead,
        DocTag::TableRow => DocTagModel::TableRow,
        DocTag::TableCell => DocTagModel::TableCell,
        DocTag::Emphasis => DocTagModel::Emphasis,
        DocTag::Strong => DocTagModel::Strong,
        DocTag::Strikethrough => DocTagModel::Strikethrough,
        DocTag::Link(lt, url, title) => DocTagModel::Link(lt, url@, title@),
        DocTag::Image(lt, url, title) => DocTagModel::Image(lt, url@, title@),
    }
}

/// The model of one event.
pub open spec fn doc_event_model(e: DocEvent) -> DocEventModel {
    match e {
        DocEvent::Start(t) => DocEventModel::Start(doc_tag_model(t)),
        DocEvent::End(t) => DocEventModel::End(t),
        DocEvent::Text(s) => DocEventModel::Text(s@),
        DocEvent::Code(s) => DocEventModel::Code(s@),
        DocEvent::Html(s) => DocEventModel::Html(s@),
        DocEvent::InlineHtml(s) => DocEventModel::InlineHtml(s@),
        DocEvent::FootnoteReference(s) => DocEventModel::FootnoteReference(s@),
        DocEvent::SoftBreak => DocEventModel::SoftBreak,
        DocEvent::HardBreak => DocEventModel::HardBreak,
        DocEvent::Rule => DocEventModel::Rule,
        DocEvent::TaskListMarker(b) => DocEventModel::TaskListMarker(b),
    }
}

/// The model of an event sequence.
pub open spec fn events_model(s: Seq<DocEvent>) -> Seq<DocEventModel> {
    s.map_values(|e: DocEvent| doc_event_model(e))
}

/// A parsed markdown document: its concrete event sequence.
#[derive(Debug, PartialEq, Eq)]
pub struct MarkdownFile {
    pub events: Vec<DocEvent>,
}

impl MarkdownFile {
    /// The document's events.
    pub fn get_contents(&self) -> (r: &Vec<DocEvent>)
        ensures
            r == &self.events,
    {
        &self.events
    }

    /// Replace the document's events.
    pub fn set_contents(&mut self, events: Vec<DocEvent>)
        ensures
            final(self).events == events,
    {
        self.events = events;
    }
}

/// The typed content of a file.
#[derive(Debug, PartialEq, Eq)]
pub enum FileType {
    /// A file the runtime does not understand.
    Unknown,
    /// A markdown document, as its event sequence.
    Markdown(Vec<DocEvent>),
}

/// A file travelling through the dispatch pipeline.
#[derive(Debug, PartialEq, Eq)]
pub struct File {
    pub path: String,
    pub data: FileType,
}

impl FileType {
    /// View this content as a markdown document; a file of any other
    /// kind is a codec error.
    pub fn to_markdown(self) -> (r: Result<MarkdownFile, Error>)
        ensures
            self matches FileType::Markdown(evs) ==> (r matches Ok(m) && m.events == evs),
            self is Unknown ==> (r matches Err(e) && e matches Error::FileCodec(_)),
    {
        match self {
            FileType::Markdown(events) => Ok(MarkdownFile { events }),
            FileType::Unknown => Err(Error::FileCodec("not a markdown file".to_owned())),
        }
    }

    /// Pack a markdown document back into a file at this path.
    pub fn to_file(file: MarkdownFile, path: String) -> (r: Result<File, Error>)
        ensures
            r matches Ok(f) && f.path == path && (f.data matches FileType::Markdown(evs)
                && evs == file.events),
    {
        Ok(File { path, data: FileType::Markdown(file.events) })
    }
}

} // verus!
