//! The pattern ("matcher") instantiation of the document-event union,
//! and the pure matching engine that tests a matcher against a
//! concrete event.
//!
//! Structural matchers compare only the discriminant of the concrete
//! event; this is a known limitation of `Heading`, `Link`, `Image`,
//! `Table` and `FootnoteDefinition` matchers, whose declared sub-fields
//! are ignored. Leaf matchers (`Text`, `InlineCode`, `FootNote`) and
//! fenced code-block matchers treat their stored string as a regular
//! expression and test it against the concrete payload; an invalid
//! pattern is reported as an error, never as a silent non-match.

use vstd::prelude::*;

use crate::errors::Error;
use crate::events::{Alignment, DocCodeBlockKind, DocEvent, DocTag, HeadingLevel, LinkType};
use crate::markdown::{doc_event_model, CodeKindModel, DocEventModel, DocTagModel};

verus! {

/// A pattern over a string, written as a regular expression.
pub type Pattern = String;

/// The kind of a code-block matcher.
#[derive(Debug, Clone, PartialEq, Eq)]
pub enum CodeBlockKind {
    /// Matches only indented code blocks.
    Indented,
    /// Matches fenced code blocks whose info string matches the pattern.
    Fenced(Pattern),
}

/// The pattern form of a structural construct. A field that is absent
/// matches anything.
#[derive(Debug, Clone, PartialEq, Eq)]
pub enum Tag {
    Paragraph,
    /// A heading matcher; level, fragment identifier and classes are
    /// declared but not consulted (discriminant-only matching).
    Heading(Option<HeadingLevel>, Option<Pattern>, Vec<Pattern>),
    BlockQuote,
    CodeBlock(CodeBlockKind),
    List,
    Item,
    /// Declared label pattern is not consulted (discriminant-only).
    FootnoteDefinition(Pattern),
    /// Declared alignments are not consulted (discriminant-only).
    Table(Vec<Alignment>),
    TableHead,
    TableRow,
    TableCell,
    Emphasis,
    Strong,
    Strikethrough,
    /// Declared fields are not consulted (discriminant-only).
    Link(Option<LinkType>, Option<Pattern>, Option<Pattern>),
    /// Declared fields are not consulted (discriminant-only).
    Image(Option<LinkType>, Option<Pattern>, Option<Pattern>),
}

/// A matcher over one concrete document event.
#[derive(Debug, Clone, PartialEq, Eq)]
pub enum MarkdownEvent {
    /// Matches the start of a structural construct.
    Tag(Tag),
    /// Matches a text node whose literal content matches the pattern.
    Text(Pattern),
    /// Matches an inline code node whose content matches the pattern.
    InlineCode(Pattern),
    /// Matches a footnote reference whose label matches the pattern.
    FootNote(Pattern),
    /// Matches any task list marker.
    TaskList,
}

/// The mathematical model of a matcher: exactly the information the
/// matching engine consults, with patterns as character sequences.
pub enum MatcherModel {
    Text(Seq<char>),
    InlineCode(Seq<char>),
    FootNote(Seq<char>),
    TaskList,
    TagParagraph,
    TagHeading,
    TagBlockQuote,
    TagCodeIndented,
    TagCodeFenced(Seq<char>),
    TagList,
    TagItem,
    TagFootnoteDefinition(Seq<char>),
    TagTable,
    TagTableHead,
    TagTableRow,
    TagTableCell,
    TagEmphasis,
    TagStrong,
    TagStrikethrough,
    TagLink,
    TagImage,
}

/// The model of a structural matcher.
pub open spec fn tag_model(t: Tag) -> MatcherModel {
    match t {
        Tag::Paragraph => MatcherModel::TagParagraph,
        Tag::Heading(_, _, _) => MatcherModel::TagHeading,
        Tag::BlockQuote => MatcherModel::TagBlockQuote,
        Tag::CodeBlock(k) => match k {
            CodeBlockKind::Indented => MatcherModel::TagCodeIndented,
            CodeBlockKind::Fenced(p) => MatcherModel::TagCodeFenced(p@),
        },
        Tag::List => MatcherModel::TagList,
        Tag::Item => MatcherModel::TagItem,
        Tag::FootnoteDefinition(p) => MatcherModel::TagFootnoteDefinition(p@),
        Tag::Table(_) => MatcherModel::TagTable,
        Tag::TableHead => MatcherModel::TagTableHead,
        Tag::TableRow => MatcherModel::TagTableRow,
        Tag::TableCell => MatcherModel::TagTableCell,
        Tag::Emphasis => MatcherModel::TagEmphasis,
        Tag::Strong => MatcherModel::TagStrong,
        Tag::Strikethrough => MatcherModel::TagStrikethrough,
        Tag::Link(_, _, _) => MatcherModel::TagLink,
        Tag::Image(_, _, _) => MatcherModel::TagImage,
    }
}

/// The model of a matcher.
pub open spec fn matcher_model(m: MarkdownEvent) -> MatcherModel {
    match m {
        MarkdownEvent::Tag(t) => tag_model(t),
        MarkdownEvent::Text(p) => MatcherModel::Text(p@),
        MarkdownEvent::InlineCode(p) => MatcherModel::InlineCode(p@),
        MarkdownEvent::FootNote(p) => MatcherModel::FootNote(p@),
        MarkdownEvent::TaskList => MatcherModel::TaskList,
    }
}

/// Whether the pattern is a valid regular expression. A pattern's
/// validity is a function of its characters alone.
pub uninterp spec fn regex_valid(pat: Seq<char>) -> bool;

/// Whether the regular expression `pat` matches somewhere inside
/// `text`. Only meaningful when `regex_valid(pat)` holds.
pub uninterp spec fn regex_matches(pat: Seq<char>, text: Seq<char>) -> bool;

/// Relies on `regex::Regex::new` and `regex::Regex::is_match`: whether
/// a pattern compiles, and whether a compiled pattern matches somewhere
/// in a text, are functions of the pattern and text characters alone.
#[verifier::external_body]
fn regex_match(pat: &str, text: &str) -> (r: Result<bool, Error>)
    ensures
        r is Ok <==> regex_valid(pat@),
        r matches Ok(b) ==> b == regex_matches(pat@, text@),
        r matches Err(e) ==> e matches Error::Regex(_),
{
    match regex::Regex::new(pat) {
        Ok(re) => Ok(re.is_match(text)),
        Err(e) => Err(Error::Regex(e.to_string())),
    }
}

/// What a matcher model says about one modeled event.
pub open spec fn spec_model_matches_doc(v: MatcherModel, e: DocEventModel) -> bool {
    match v {
        MatcherModel::Text(pat) => e matches DocEventModel::Text(s) && regex_matches(pat, s),
        MatcherModel::InlineCode(pat) => e matches DocEventModel::Code(s) && regex_matches(pat, s),
        MatcherModel::FootNote(pat) => e matches DocEventModel::FootnoteReference(s)
            && regex_matches(pat, s),
        MatcherModel::TaskList => e is TaskListMarker,
        MatcherModel::TagParagraph => e matches DocEventModel::Start(t) && t is Paragraph,
        MatcherModel::TagHeading => e matches DocEventModel::Start(t) && t is Heading,
        MatcherModel::TagBlockQuote => e matches DocEventModel::Start(t) && t is BlockQuote,
        MatcherModel::TagCodeIndented => e matches DocEventModel::Start(t)
            && t matches DocTagModel::CodeBlock(ck) && ck is Indented,
        MatcherModel::TagCodeFenced(pat) => e matches DocEventModel::Start(t)
            && t matches DocTagModel::CodeBlock(ck) && ck matches CodeKindModel::Fenced(info)
            && regex_matches(pat, info),
        MatcherModel::TagList => e matches DocEventModel::Start(t) && t is List,
        MatcherModel::TagItem => e matches DocEventModel::Start(t) && t is Item,
        MatcherModel::TagFootnoteDefinition(_) => e matches DocEventModel::Start(t)
            && t is FootnoteDefinition,
        MatcherModel::TagTable => e matches DocEventModel::Start(t) && t is Table,
        MatcherModel::TagTableHead => e matches DocEventModel::Start(t) && t is TableHead,
        MatcherModel::TagTableRow => e matches DocEventModel::Start(t) && t is TableRow,
        MatcherModel::TagTableCell => e matches DocEventModel::Start(t) && t is TableCell,
        MatcherModel::TagEmphasis => e matches DocEventModel::Start(t) && t is Emphasis,
        MatcherModel::TagStrong => e matches DocEventModel::Start(t) && t is Strong,
        MatcherModel::TagStrikethrough => e matches DocEventModel::Start(t) && t is Strikethrough,
        MatcherModel::TagLink => e matches DocEventModel::Start(t) && t is Link,
        MatcherModel::TagImage => e matches DocEventModel::Start(t) && t is Image,
    }
}

/// What a matcher model says about a concrete event.
pub open spec fn spec_model_matches(v: MatcherModel, e: DocEvent) -> bool {
    spec_model_matches_doc(v, doc_event_model(e))
}

/// What a matcher says about a concrete event.
pub open spec fn spec_event_matches(m: MarkdownEvent, e: DocEvent) -> bool {
    spec_model_matches(matcher_model(m), e)
}

/// What a structural matcher says about a concrete opening tag.
pub open spec fn spec_tag_matches(m: Tag, t: DocTag) -> bool {
    spec_model_matches(tag_model(m), DocEvent::Start(t))
}

/// Whether evaluating the model against this modeled event consults
/// its pattern as a regular expression (and can therefore fail on an
/// invalid pattern).
pub open spec fn spec_model_consults_regex_doc(v: MatcherModel, e: DocEventModel) -> bool {
    match v {
        MatcherModel::Text(_) => e is Text,
        MatcherModel::InlineCode(_) => e is Code,
        MatcherModel::FootNote(_) => e is FootnoteReference,
        MatcherModel::TagCodeFenced(_) => e matches DocEventModel::Start(t)
            && t matches DocTagModel::CodeBlock(ck) && ck is Fenced,
        _ => false,
    }
}

/// Whether evaluating the model against this event consults its
/// pattern as a regular expression.
pub open spec fn spec_model_consults_regex(v: MatcherModel, e: DocEvent) -> bool {
    spec_model_consults_regex_doc(v, doc_event_model(e))
}

/// The pattern a matcher model consults, when it consults one.
pub open spec fn spec_model_pattern(v: MatcherModel) -> Seq<char> {
    match v {
        MatcherModel::Text(pat) => pat,
        MatcherModel::InlineCode(pat) => pat,
        MatcherModel::FootNote(pat) => pat,
        MatcherModel::TagCodeFenced(pat) => pat,
        _ => Seq::empty(),
    }
}

/// Whether evaluating this matcher against this event can fail, and on
/// which pattern; see [`spec_model_consults_regex`].
pub open spec fn spec_consults_regex(m: MarkdownEvent, e: DocEvent) -> bool {
    spec_model_consults_regex(matcher_model(m), e)
}

/// The pattern the matcher would consult, when it consults one.
pub open spec fn spec_pattern_of(m: MarkdownEvent) -> Seq<char> {
    spec_model_pattern(matcher_model(m))
}

impl MarkdownEvent {
    /// Evaluate this matcher against one concrete event.
    ///
    /// Matching is pure: no I/O, no mutation. The result is `Err` exactly
    /// when the evaluation consults an invalid regular expression.
    pub fn is_matched(&self, event: &DocEvent) -> (r: Result<bool, Error>)
        ensures
            r is Ok <==> (!spec_consults_regex(*self, *event)
                || regex_valid(spec_pattern_of(*self))),
            r matches Ok(b) ==> b == spec_event_matches(*self, *event),
            r matches Err(e) ==> e matches Error::Regex(_),
    {
        match self {
            MarkdownEvent::Tag(mt) => {
                if let DocEvent::Start(t) = event {
                    mt.is_matched(t)
                } else {
                    Ok(false)
                }
            },
            MarkdownEvent::Text(pat) => {
                if let DocEvent::Text(s) = event {
                    regex_match(pat.as_str(), s.as_str())
                } else {
                    Ok(false)
                }
            },
            MarkdownEvent::InlineCode(pat) => {
                if let DocEvent::Code(s) = event {
                    regex_match(pat.as_str(), s.as_str())
                } else {
                    Ok(false)
                }
            },
            MarkdownEvent::FootNote(pat) => {
                if let DocEvent::FootnoteReference(s) = event {
                    regex_match(pat.as_str(), s.as_str())
                } else {
                    Ok(false)
                }
            },
            MarkdownEvent::TaskList => Ok(matches!(event, DocEvent::TaskListMarker(_))),
        }
    }
}

impl Tag {
    /// Evaluate this structural matcher against a concrete opening tag.
    pub fn is_matched(&self, tag: &DocTag) -> (r: Result<bool, Error>)
        ensures
            r is Ok <==> (!spec_consults_regex(MarkdownEvent::Tag(*self), DocEvent::Start(*tag))
                || regex_valid(spec_pattern_of(MarkdownEvent::Tag(*self)))),
            r matches Ok(b) ==> b == spec_tag_matches(*self, *tag),
            r matches Err(e) ==> e matches Error::Regex(_),
    {
        match self {
            Tag::Paragraph => Ok(matches!(tag, DocTag::Paragraph)),
            Tag::Heading(_, _, _) => Ok(matches!(tag, DocTag::Heading(_, _, _))),
            Tag::BlockQuote => Ok(matches!(tag, DocTag::BlockQuote)),
            Tag::CodeBlock(k) => match (k, tag) {
                (CodeBlockKind::Indented, DocTag::CodeBlock(ck)) => Ok(ck.is_indented()),
                (CodeBlockKind::Fenced(pat), DocTag::CodeBlock(ck)) => {
                    if let DocCodeBlockKind::Fenced(info) = ck {
                        regex_match(pat.as_str(), info.as_str())
                    } else {
                        Ok(false)
                    }
                },
                _ => Ok(false),
            },
            Tag::List => Ok(matches!(tag, DocTag::List(_))),
            Tag::Item => Ok(matches!(tag, DocTag::Item)),
            Tag::FootnoteDefinition(_) => Ok(matches!(tag, DocTag::FootnoteDefinition(_))),
            Tag::Table(_) => Ok(matches!(tag, DocTag::Table(_))),
            Tag::TableHead => Ok(matches!(tag, DocTag::TableHead)),
            Tag::TableRow => Ok(matches!(tag, DocTag::TableRow)),
            Tag::TableCell => Ok(matches!(tag, DocTag::TableCell)),
            Tag::Emphasis => Ok(matches!(tag, DocTag::Emphasis)),
            Tag::Strong => Ok(matches!(tag, DocTag::Strong)),
            Tag::Strikethrough => Ok(matches!(tag, DocTag::Strikethrough)),
            Tag::Link(_, _, _) => Ok(matches!(tag, DocTag::Link(_, _, _))),
            Tag::Image(_, _, _) => Ok(matches!(tag, DocTag::Image(_, _, _))),
        }
    }
}

} // verus!
