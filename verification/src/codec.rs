//! The serialized form of a matcher, as stored in a subscription's
//! `data` column.
//!
//! The format is a short discriminant name, followed by `:` and the
//! literal pattern for the matcher forms that carry one. Sub-fields
//! that the matching engine never consults (those of `Heading`, `Link`,
//! `Image` and `Table` matchers) are not serialized: decoding yields a
//! matcher with those fields absent, which matches exactly the same
//! events as the one encoded.

use vstd::prelude::*;

use crate::errors::Error;
use crate::matcher::{matcher_model, CodeBlockKind, MarkdownEvent, MatcherModel, Tag};

verus! {

/// `p` is a prefix of `s`.
pub open spec fn has_prefix(s: Seq<char>, p: Seq<char>) -> bool {
    p.len() <= s.len() && s.subrange(0, p.len() as int) == p
}

/// What remains of `s` after removing the first `n` characters.
pub open spec fn chopped(s: Seq<char>, n: int) -> Seq<char> {
    s.subrange(n, s.len() as int)
}

/// The serialized form of a matcher model.
pub open spec fn spec_model_data(v: MatcherModel) -> Seq<char> {
    match v {
        MatcherModel::Text(p) => "Text:"@ + p,
        MatcherModel::InlineCode(p) => "InlineCode:"@ + p,
        MatcherModel::FootNote(p) => "FootNote:"@ + p,
        MatcherModel::TagCodeFenced(p) => "Tag:CodeBlock:Fenced:"@ + p,
        MatcherModel::TagFootnoteDefinition(p) => "Tag:FootnoteDefinition:"@ + p,
        MatcherModel::TaskList => "TaskList"@,
        MatcherModel::TagParagraph => "Tag:Paragraph"@,
        MatcherModel::TagHeading => "Tag:Heading"@,
        MatcherModel::TagBlockQuote => "Tag:BlockQuote"@,
        MatcherModel::TagCodeIndented => "Tag:CodeBlock:Indented"@,
        MatcherModel::TagList => "Tag:List"@,
        MatcherModel::TagItem => "Tag:Item"@,
        MatcherModel::TagTable => "Tag:Table"@,
        MatcherModel::TagTableHead => "Tag:TableHead"@,
        MatcherModel::TagTableRow => "Tag:TableRow"@,
        MatcherModel::TagTableCell => "Tag:TableCell"@,
        MatcherModel::TagEmphasis => "Tag:Emphasis"@,
        MatcherModel::TagStrong => "Tag:Strong"@,
        MatcherModel::TagStrikethrough => "Tag:Strikethrough"@,
        MatcherModel::TagLink => "Tag:Link"@,
        MatcherModel::TagImage => "Tag:Image"@,
    }
}

/// The serialized form of a matcher.
pub open spec fn spec_matcher_data(m: MarkdownEvent) -> Seq<char> {
    spec_model_data(matcher_model(m))
}

/// The matcher model a serialization denotes, if it is well formed.
/// The branches are tried in the same order as in [`decode_matcher`].
pub open spec fn spec_data_model(s: Seq<char>) -> Option<MatcherModel> {
    if has_prefix(s, "Text:"@) {
        Some(MatcherModel::Text(chopped(s, "Text:"@.len() as int)))
    } else if has_prefix(s, "InlineCode:"@) {
        Some(MatcherModel::InlineCode(chopped(s, "InlineCode:"@.len() as int)))
    } else if has_prefix(s, "FootNote:"@) {
        Some(MatcherModel::FootNote(chopped(s, "FootNote:"@.len() as int)))
    } else if has_prefix(s, "Tag:CodeBlock:Fenced:"@) {
        Some(MatcherModel::TagCodeFenced(chopped(s, "Tag:CodeBlock:Fenced:"@.len() as int)))
    } else if has_prefix(s, "Tag:FootnoteDefinition:"@) {
        Some(
            MatcherModel::TagFootnoteDefinition(
                chopped(s, "Tag:FootnoteDefinition:"@.len() as int),
            ),
        )
    } else if s == "TaskList"@ {
        Some(MatcherModel::TaskList)
    } else if s == "Tag:Paragraph"@ {
        Some(MatcherModel::TagParagraph)
    } else if s == "Tag:Heading"@ {
        Some(MatcherModel::TagHeading)
    } else if s == "Tag:BlockQuote"@ {
        Some(MatcherModel::TagBlockQuote)
    } else if s == "Tag:CodeBlock:Indented"@ {
        Some(MatcherModel::TagCodeIndented)
    } else if s == "Tag:List"@ {
        Some(MatcherModel::TagList)
    } else if s == "Tag:Item"@ {
        Some(MatcherModel::TagItem)
    } else if s == "Tag:Table"@ {
        Some(MatcherModel::TagTable)
    } else if s == "Tag:TableHead"@ {
        Some(MatcherModel::TagTableHead)
    } else if s == "Tag:TableRow"@ {
        Some(MatcherModel::TagTableRow)
    } else if s == "Tag:TableCell"@ {
        Some(MatcherModel::TagTableCell)
    } else if s == "Tag:Emphasis"@ {
        Some(MatcherModel::TagEmphasis)
    } else if s == "Tag:Strong"@ {
        Some(MatcherModel::TagStrong)
    } else if s == "Tag:Strikethrough"@ {
        Some(MatcherModel::TagStrikethrough)
    } else if s == "Tag:Link"@ {
        Some(MatcherModel::TagLink)
    } else if s == "Tag:Image"@ {
        Some(MatcherModel::TagImage)
    } else {
        None
    }
}

/// Character-for-character equality of two string slices.
fn str_eq(a: &str, b: &str) -> (r: bool)
    ensures
        r == (a@ == b@),
{
    let x: String = a.to_owned();
    let y: String = b.to_owned();
    x == y
}

/// Whether `p` is a prefix of `s`.
pub fn str_has_prefix(s: &str, p: &str) -> (r: bool)
    ensures
        r == has_prefix(s@, p@),
{
    let n: usize = p.unicode_len();
    if s.unicode_len() < n {
        false
    } else {
        str_eq(s.substring_char(0, n), p)
    }
}

/// The rest of `s` after its first `n` characters, as an owned string.
fn str_chop(s: &str, n: usize) -> (r: String)
    requires
        n <= s@.len(),
    ensures
        r@ == chopped(s@, n as int),
{
    s.substring_char(n, s.unicode_len()).to_owned()
}

/// Serialize a matcher.
pub fn encode_matcher(m: &MarkdownEvent) -> (r: String)
    ensures
        r@ == spec_matcher_data(*m),
{
    match m {
        MarkdownEvent::Tag(t) => encode_tag(t),
        MarkdownEvent::Text(p) => {
            let mut r: String = "Text:".to_owned();
            r.append(p.as_str());
            r
        },
        MarkdownEvent::InlineCode(p) => {
            let mut r: String = "InlineCode:".to_owned();
            r.append(p.as_str());
            r
        },
        MarkdownEvent::FootNote(p) => {
            let mut r: String = "FootNote:".to_owned();
            r.append(p.as_str());
            r
        },
        MarkdownEvent::TaskList => "TaskList".to_owned(),
    }
}

fn encode_tag(t: &Tag) -> (r: String)
    ensures
        r@ == spec_model_data(crate::matcher::tag_model(*t)),
{
    match t {
        Tag::Paragraph => "Tag:Paragraph".to_owned(),
        Tag::Heading(_, _, _) => "Tag:Heading".to_owned(),
        Tag::BlockQuote => "Tag:BlockQuote".to_owned(),
        Tag::CodeBlock(k) => match k {
            CodeBlockKind::Indented => "Tag:CodeBlock:Indented".to_owned(),
            CodeBlockKind::Fenced(p) => {
                let mut r: String = "Tag:CodeBlock:Fenced:".to_owned();
                r.append(p.as_str());
                r
            },
        },
        Tag::List => "Tag:List".to_owned(),
        Tag::Item => "Tag:Item".to_owned(),
        Tag::FootnoteDefinition(p) => {
            let mut r: String = "Tag:FootnoteDefinition:".to_owned();
            r.append(p.as_str());
            r
        },
        Tag::Table(_) => "Tag:Table".to_owned(),
        Tag::TableHead => "Tag:TableHead".to_owned(),
        Tag::TableRow => "Tag:TableRow".to_owned(),
        Tag::TableCell => "Tag:TableCell".to_owned(),
        Tag::Emphasis => "Tag:Emphasis".to_owned(),
        Tag::Strong => "Tag:Strong".to_owned(),
        Tag::Strikethrough => "Tag:Strikethrough".to_owned(),
        Tag::Link(_, _, _) => "Tag:Link".to_owned(),
        Tag::Image(_, _, _) => "Tag:Image".to_owned(),
    }
}

/// Deserialize a matcher.
///
/// Every well-formed serialization decodes to a matcher with exactly
/// the model the serialization denotes; everything else is a
/// `Serialization` error.
pub fn decode_matcher(s: &str) -> (r: Result<MarkdownEvent, Error>)
    ensures
        r is Ok <==> spec_data_model(s@) is Some,
        r matches Ok(m) ==> spec_data_model(s@) matches Some(v) && matcher_model(m) == v,
        r matches Err(e) ==> e matches Error::Serialization(_),
{
    if str_has_prefix(s, "Text:") {
        Ok(MarkdownEvent::Text(str_chop(s, "Text:".unicode_len())))
    } else if str_has_prefix(s, "InlineCode:") {
        Ok(MarkdownEvent::InlineCode(str_chop(s, "InlineCode:".unicode_len())))
    } else if str_has_prefix(s, "FootNote:") {
        Ok(MarkdownEvent::FootNote(str_chop(s, "FootNote:".unicode_len())))
    } else if str_has_prefix(s, "Tag:CodeBlock:Fenced:") {
        Ok(MarkdownEvent::Tag(Tag::CodeBlock(CodeBlockKind::Fenced(
            str_chop(s, "Tag:CodeBlock:Fenced:".unicode_len()),
        ))))
    } else if str_has_prefix(s, "Tag:FootnoteDefinition:") {
        Ok(MarkdownEvent::Tag(Tag::FootnoteDefinition(
            str_chop(s, "Tag:FootnoteDefinition:".unicode_len()),
        )))
    } else if str_eq(s, "TaskList") {
        Ok(MarkdownEvent::TaskList)
    } else if str_eq(s, "Tag:Paragraph") {
        Ok(MarkdownEvent::Tag(Tag::Paragraph))
    } else if str_eq(s, "Tag:Heading") {
        Ok(MarkdownEvent::Tag(Tag::Heading(None, None, Vec::new())))
    } else if str_eq(s, "Tag:BlockQuote") {
        Ok(MarkdownEvent::Tag(Tag::BlockQuote))
    } else if str_eq(s, "Tag:CodeBlock:Indented") {
        Ok(MarkdownEvent::Tag(Tag::CodeBlock(CodeBlockKind::Indented)))
    } else if str_eq(s, "Tag:List") {
        Ok(MarkdownEvent::Tag(Tag::List))
    } else if str_eq(s, "Tag:Item") {
        Ok(MarkdownEvent::Tag(Tag::Item))
    } else if str_eq(s, "Tag:Table") {
        Ok(MarkdownEvent::Tag(Tag::Table(Vec::new())))
    } else if str_eq(s, "Tag:TableHead") {
        Ok(MarkdownEvent::Tag(Tag::TableHead))
    } else if str_eq(s, "Tag:TableRow") {
        Ok(MarkdownEvent::Tag(Tag::TableRow))
    } else if str_eq(s, "Tag:TableCell") {
        Ok(MarkdownEvent::Tag(Tag::TableCell))
    } else if str_eq(s, "Tag:Emphasis") {
        Ok(MarkdownEvent::Tag(Tag::Emphasis))
    } else if str_eq(s, "Tag:Strong") {
        Ok(MarkdownEvent::Tag(Tag::Strong))
    } else if str_eq(s, "Tag:Strikethrough") {
        Ok(MarkdownEvent::Tag(Tag::Strikethrough))
    } else if str_eq(s, "Tag:Link") {
        Ok(MarkdownEvent::Tag(Tag::Link(None, None, None)))
    } else if str_eq(s, "Tag:Image") {
        Ok(MarkdownEvent::Tag(Tag::Image(None, None, None)))
    } else {
        Err(Error::Serialization("unknown matcher encoding".to_owned()))
    }
}

/// `needle` occurs somewhere inside `hay`.
pub open spec fn spec_contains(hay: Seq<char>, needle: Seq<char>) -> bool {
    exists|k: int|
        0 <= k && k + needle.len() <= hay.len() && #[trigger] hay.subrange(
            k,
            k + needle.len(),
        ) == needle
}

/// Whether `needle` occurs somewhere inside `hay`.
pub fn str_contains(hay: &str, needle: &str) -> (r: bool)
    ensures
        r == spec_contains(hay@, needle@),
{
    let n: usize = hay.unicode_len();
    let m: usize = needle.unicode_len();
    if m > n {
        return false;
    }
    if m == 0 {
        proof {
            assert(hay@.subrange(0, 0 + needle@.len() as int) =~= needle@);
        }
        return true;
    }
    let mut k: usize = 0;
    while k <= n - m
        invariant
            1 <= m <= n,
            n == hay@.len(),
            m == needle@.len(),
            k <= n - m + 1,
            forall|k2: int|
                0 <= k2 < k ==> #[trigger] hay@.subrange(k2, k2 + needle@.len() as int) != needle@,
        decreases n - m - k + 1,
    {
        if str_eq(hay.substring_char(k, k + m), needle) {
            return true;
        }
        k = k + 1;
    }
    false
}

/// `p` is a suffix of `s`.
pub open spec fn has_suffix(s: Seq<char>, p: Seq<char>) -> bool {
    p.len() <= s.len() && s.subrange(s.len() - p.len(), s.len() as int) == p
}

/// Whether `p` ends `s`.
pub fn str_has_suffix(s: &str, p: &str) -> (r: bool)
    ensures
        r == has_suffix(s@, p@),
{
    let n: usize = s.unicode_len();
    let m: usize = p.unicode_len();
    if m > n {
        false
    } else {
        str_eq(s.substring_char(n - m, n), p)
    }
}

/// One character position at which `q` differs from `x`, so `x` neither
/// equals `q` nor starts with it.
proof fn lemma_differs(x: Seq<char>, q: Seq<char>, i: int)
    requires
        0 <= i < x.len(),
        i < q.len(),
        x[i] != q[i],
    ensures
        x != q,
        !has_prefix(x, q),
{
    if x == q {
        assert(x[i] == q[i]);
    }
    if has_prefix(x, q) {
        assert(x.subrange(0, q.len() as int)[i] == x[i]);
    }
}

/// LAW (codec round trip): serializing any matcher and decoding the
/// result denotes exactly the serialized model.
#[verifier::rlimit(60)]
pub proof fn lemma_matcher_data_roundtrip(m: MarkdownEvent)
    ensures
        spec_data_model(spec_matcher_data(m)) == Some(matcher_model(m)),
{
    reveal_strlit("Text:");
    assert("Text:"@.len() == 5);
    reveal_strlit("InlineCode:");
    assert("InlineCode:"@.len() == 11);
    reveal_strlit("FootNote:");
    assert("FootNote:"@.len() == 9);
    reveal_strlit("Tag:CodeBlock:Fenced:");
    assert("Tag:CodeBlock:Fenced:"@.len() == 21);
    reveal_strlit("Tag:FootnoteDefinition:");
    assert("Tag:FootnoteDefinition:"@.len() == 23);
    reveal_strlit("TaskList");
    assert("TaskList"@.len() == 8);
    reveal_strlit("Tag:Paragraph");
    assert("Tag:Paragraph"@.len() == 13);
    reveal_strlit("Tag:Heading");
    assert("Tag:Heading"@.len() == 11);
    reveal_strlit("Tag:BlockQuote");
    assert("Tag:BlockQuote"@.len() == 14);
    reveal_strlit("Tag:CodeBlock:Indented");
    assert("Tag:CodeBlock:Indented"@.len() == 22);
    reveal_strlit("Tag:List");
    assert("Tag:List"@.len() == 8);
    reveal_strlit("Tag:Item");
    assert("Tag:Item"@.len() == 8);
    reveal_strlit("Tag:Table");
    assert("Tag:Table"@.len() == 9);
    reveal_strlit("Tag:TableHead");
    assert("Tag:TableHead"@.len() == 13);
    reveal_strlit("Tag:TableRow");
    assert("Tag:TableRow"@.len() == 12);
    reveal_strlit("Tag:TableCell");
    assert("Tag:TableCell"@.len() == 13);
    reveal_strlit("Tag:Emphasis");
    assert("Tag:Emphasis"@.len() == 12);
    reveal_strlit("Tag:Strong");
    assert("Tag:Strong"@.len() == 10);
    reveal_strlit("Tag:Strikethrough");
    assert("Tag:Strikethrough"@.len() == 17);
    reveal_strlit("Tag:Link");
    assert("Tag:Link"@.len() == 8);
    reveal_strlit("Tag:Image");
    assert("Tag:Image"@.len() == 9);
    let s = spec_matcher_data(m);
    match matcher_model(m) {
        MatcherModel::Text(p) => {
            assert(has_prefix(s, "Text:"@)) by {
                assert(s.subrange(0, 5) =~= "Text:"@);
            }
            assert(chopped(s, 5) =~= p);
        },
        MatcherModel::InlineCode(p) => {
            assert(s[1] == 'n');
            lemma_differs(s, "Text:"@, 1);
            assert(has_prefix(s, "InlineCode:"@)) by {
                assert(s.subrange(0, 11) =~= "InlineCode:"@);
            }
            assert(chopped(s, 11) =~= p);
        },
        MatcherModel::FootNote(p) => {
            assert(s[0] == 'F');
            lemma_differs(s, "Text:"@, 0);
            lemma_differs(s, "InlineCode:"@, 0);
            assert(has_prefix(s, "FootNote:"@)) by {
                assert(s.subrange(0, 9) =~= "FootNote:"@);
            }
            assert(chopped(s, 9) =~= p);
        },
        MatcherModel::TagCodeFenced(p) => {
            assert(s[0] == 'T');
            assert(s[1] == 'a');
            lemma_differs(s, "Text:"@, 1);
            lemma_differs(s, "InlineCode:"@, 0);
            lemma_differs(s, "FootNote:"@, 0);
            assert(has_prefix(s, "Tag:CodeBlock:Fenced:"@)) by {
                assert(s.subrange(0, 21) =~= "Tag:CodeBlock:Fenced:"@);
            }
            assert(chopped(s, 21) =~= p);
        },
        MatcherModel::TagFootnoteDefinition(p) => {
            assert(s[0] == 'T');
            assert(s[1] == 'a');
            assert(s[4] == 'F');
            lemma_differs(s, "Text:"@, 1);
            lemma_differs(s, "InlineCode:"@, 0);
            lemma_differs(s, "FootNote:"@, 1);
            lemma_differs(s, "Tag:CodeBlock:Fenced:"@, 4);
            assert(has_prefix(s, "Tag:FootnoteDefinition:"@)) by {
                assert(s.subrange(0, 23) =~= "Tag:FootnoteDefinition:"@);
            }
            assert(chopped(s, 23) =~= p);
        },
        MatcherModel::TaskList => {
            assert(s[1] == 'a');
            lemma_differs(s, "Text:"@, 1);
            assert(s[0] == 'T');
            lemma_differs(s, "InlineCode:"@, 0);
            assert(s[0] == 'T');
            lemma_differs(s, "FootNote:"@, 0);
            assert(s[2] == 's');
            lemma_differs(s, "Tag:CodeBlock:Fenced:"@, 2);
            assert(s[2] == 's');
            lemma_differs(s, "Tag:FootnoteDefinition:"@, 2);
        },
        MatcherModel::TagParagraph => {
            assert(s[1] == 'a');
            lemma_differs(s, "Text:"@, 1);
            assert(s[0] == 'T');
            lemma_differs(s, "InlineCode:"@, 0);
            assert(s[0] == 'T');
            lemma_differs(s, "FootNote:"@, 0);
            assert(s[4] == 'P');
            lemma_differs(s, "Tag:CodeBlock:Fenced:"@, 4);
            assert(s[4] == 'P');
            lemma_differs(s, "Tag:FootnoteDefinition:"@, 4);
        },
        MatcherModel::TagHeading => {
            assert(s[1] == 'a');
            lemma_differs(s, "Text:"@, 1);
            assert(s[0] == 'T');
            lemma_differs(s, "InlineCode:"@, 0);
            assert(s[0] == 'T');
            lemma_differs(s, "FootNote:"@, 0);
            assert(s[4] == 'H');
            lemma_differs(s, "Tag:CodeBlock:Fenced:"@, 4);
            assert(s[4] == 'H');
            lemma_differs(s, "Tag:FootnoteDefinition:"@, 4);
        },
        MatcherModel::TagBlockQuote => {
            assert(s[1] == 'a');
            lemma_differs(s, "Text:"@, 1);
            assert(s[0] == 'T');
            lemma_differs(s, "InlineCode:"@, 0);
            assert(s[0] == 'T');
            lemma_differs(s, "FootNote:"@, 0);
            assert(s[4] == 'B');
            lemma_differs(s, "Tag:CodeBlock:Fenced:"@, 4);
            assert(s[4] == 'B');
            lemma_differs(s, "Tag:FootnoteDefinition:"@, 4);
        },
        MatcherModel::TagCodeIndented => {
            assert(s[1] == 'a');
            lemma_differs(s, "Text:"@, 1);
            assert(s[0] == 'T');
            lemma_differs(s, "InlineCode:"@, 0);
            assert(s[0] == 'T');
            lemma_differs(s, "FootNote:"@, 0);
            assert(s[14] == 'I');
            lemma_differs(s, "Tag:CodeBlock:Fenced:"@, 14);
            assert(s[4] == 'C');
            lemma_differs(s, "Tag:FootnoteDefinition:"@, 4);
        },
        MatcherModel::TagList => {
            assert(s[1] == 'a');
            lemma_differs(s, "Text:"@, 1);
            assert(s[0] == 'T');
            lemma_differs(s, "InlineCode:"@, 0);
            assert(s[0] == 'T');
            lemma_differs(s, "FootNote:"@, 0);
            assert(s[4] == 'L');
            lemma_differs(s, "Tag:CodeBlock:Fenced:"@, 4);
            assert(s[4] == 'L');
            lemma_differs(s, "Tag:FootnoteDefinition:"@, 4);
            assert(s[2] == 'g');
            assert("TaskList"@[2] == 's');
            assert(s != "TaskList"@);
        },
        MatcherModel::TagItem => {
            assert(s[1] == 'a');
            lemma_differs(s, "Text:"@, 1);
            assert(s[0] == 'T');
            lemma_differs(s, "InlineCode:"@, 0);
            assert(s[0] == 'T');
            lemma_differs(s, "FootNote:"@, 0);
            assert(s[4] == 'I');
            lemma_differs(s, "Tag:CodeBlock:Fenced:"@, 4);
            assert(s[4] == 'I');
            lemma_differs(s, "Tag:FootnoteDefinition:"@, 4);
            assert(s[2] == 'g');
            assert("TaskList"@[2] == 's');
            assert(s != "TaskList"@);
            assert(s[4] == 'I');
            assert("Tag:List"@[4] == 'L');
            assert(s != "Tag:List"@);
        },
        MatcherModel::TagTable => {
            assert(s[1] == 'a');
            lemma_differs(s, "Text:"@, 1);
            assert(s[0] == 'T');
            lemma_differs(s, "InlineCode:"@, 0);
            assert(s[0] == 'T');
            lemma_differs(s, "FootNote:"@, 0);
            assert(s[4] == 'T');
            lemma_differs(s, "Tag:CodeBlock:Fenced:"@, 4);
            assert(s[4] == 'T');
            lemma_differs(s, "Tag:FootnoteDefinition:"@, 4);
        },
        MatcherModel::TagTableHead => {
            assert(s[1] == 'a');
            lemma_differs(s, "Text:"@, 1);
            assert(s[0] == 'T');
            lemma_differs(s, "InlineCode:"@, 0);
            assert(s[0] == 'T');
            lemma_differs(s, "FootNote:"@, 0);
            assert(s[4] == 'T');
            lemma_differs(s, "Tag:CodeBlock:Fenced:"@, 4);
            assert(s[4] == 'T');
            lemma_differs(s, "Tag:FootnoteDefinition:"@, 4);
            assert(s[4] == 'T');
            assert("Tag:Paragraph"@[4] == 'P');
            assert(s != "Tag:Paragraph"@);
        },
        MatcherModel::TagTableRow => {
            assert(s[1] == 'a');
            lemma_differs(s, "Text:"@, 1);
            assert(s[0] == 'T');
            lemma_differs(s, "InlineCode:"@, 0);
            assert(s[0] == 'T');
            lemma_differs(s, "FootNote:"@, 0);
            assert(s[4] == 'T');
            lemma_differs(s, "Tag:CodeBlock:Fenced:"@, 4);
            assert(s[4] == 'T');
            lemma_differs(s, "Tag:FootnoteDefinition:"@, 4);
        },
        MatcherModel::TagTableCell => {
            assert(s[1] == 'a');
            lemma_differs(s, "Text:"@, 1);
            assert(s[0] == 'T');
            lemma_differs(s, "InlineCode:"@, 0);
            assert(s[0] == 'T');
            lemma_differs(s, "FootNote:"@, 0);
            assert(s[4] == 'T');
            lemma_differs(s, "Tag:CodeBlock:Fenced:"@, 4);
            assert(s[4] == 'T');
            lemma_differs(s, "Tag:FootnoteDefinition:"@, 4);
            assert(s[4] == 'T');
            assert("Tag:Paragraph"@[4] == 'P');
            assert(s != "Tag:Paragraph"@);
            assert(s[9] == 'C');
            assert("Tag:TableHead"@[9] == 'H');
            assert(s != "Tag:TableHead"@);
        },
        MatcherModel::TagEmphasis => {
            assert(s[1] == 'a');
            lemma_differs(s, "Text:"@, 1);
            assert(s[0] == 'T');
            lemma_differs(s, "InlineCode:"@, 0);
            assert(s[0] == 'T');
            lemma_differs(s, "FootNote:"@, 0);
            assert(s[4] == 'E');
            lemma_differs(s, "Tag:CodeBlock:Fenced:"@, 4);
            assert(s[4] == 'E');
            lemma_differs(s, "Tag:FootnoteDefinition:"@, 4);
            assert(s[4] == 'E');
            assert("Tag:TableRow"@[4] == 'T');
            assert(s != "Tag:TableRow"@);
        },
        MatcherModel::TagStrong => {
            assert(s[1] == 'a');
            lemma_differs(s, "Text:"@, 1);
            assert(s[0] == 'T');
            lemma_differs(s, "InlineCode:"@, 0);
            assert(s[0] == 'T');
            lemma_differs(s, "FootNote:"@, 0);
            assert(s[4] == 'S');
            lemma_differs(s, "Tag:CodeBlock:Fenced:"@, 4);
            assert(s[4] == 'S');
            lemma_differs(s, "Tag:FootnoteDefinition:"@, 4);
        },
        MatcherModel::TagStrikethrough => {
            assert(s[1] == 'a');
            lemma_differs(s, "Text:"@, 1);
            assert(s[0] == 'T');
            lemma_differs(s, "InlineCode:"@, 0);
            assert(s[0] == 'T');
            lemma_differs(s, "FootNote:"@, 0);
            assert(s[4] == 'S');
            lemma_differs(s, "Tag:CodeBlock:Fenced:"@, 4);
            assert(s[4] == 'S');
            lemma_differs(s, "Tag:FootnoteDefinition:"@, 4);
        },
        MatcherModel::TagLink => {
            assert(s[1] == 'a');
            lemma_differs(s, "Text:"@, 1);
            assert(s[0] == 'T');
            lemma_differs(s, "InlineCode:"@, 0);
            assert(s[0] == 'T');
            lemma_differs(s, "FootNote:"@, 0);
            assert(s[4] == 'L');
            lemma_differs(s, "Tag:CodeBlock:Fenced:"@, 4);
            assert(s[4] == 'L');
            lemma_differs(s, "Tag:FootnoteDefinition:"@, 4);
            assert(s[2] == 'g');
            assert("TaskList"@[2] == 's');
            assert(s != "TaskList"@);
            assert(s[6] == 'n');
            assert("Tag:List"@[6] == 's');
            assert(s != "Tag:List"@);
            assert(s[4] == 'L');
            assert("Tag:Item"@[4] == 'I');
            assert(s != "Tag:Item"@);
        },
        MatcherModel::TagImage => {
            assert(s[1] == 'a');
            lemma_differs(s, "Text:"@, 1);
            assert(s[0] == 'T');
            lemma_differs(s, "InlineCode:"@, 0);
            assert(s[0] == 'T');
            lemma_differs(s, "FootNote:"@, 0);
            assert(s[4] == 'I');
            lemma_differs(s, "Tag:CodeBlock:Fenced:"@, 4);
            assert(s[4] == 'I');
            lemma_differs(s, "Tag:FootnoteDefinition:"@, 4);
            assert(s[4] == 'I');
            assert("Tag:Table"@[4] == 'T');
            assert(s != "Tag:Table"@);
        },
    }
}

} // verus!
