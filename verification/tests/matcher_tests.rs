use kasuku::errors::Error;
use kasuku::events::{DocCodeBlockKind, DocEvent, DocTag};
use kasuku::matcher::{CodeBlockKind, MarkdownEvent, Tag};

fn fenced(info: &str) -> DocEvent {
    DocEvent::Start(DocTag::CodeBlock(DocCodeBlockKind::Fenced(info.to_string())))
}

#[test]
fn fenced_matcher_matches_fenced_dataview_block() {
    let matcher = MarkdownEvent::Tag(Tag::CodeBlock(CodeBlockKind::Fenced("dataview".to_string())));
    assert_eq!(matcher.is_matched(&fenced("dataview")), Ok(true));
}

#[test]
fn fenced_matcher_rejects_indented_block() {
    let matcher = MarkdownEvent::Tag(Tag::CodeBlock(CodeBlockKind::Fenced("dataview".to_string())));
    let indented = DocEvent::Start(DocTag::CodeBlock(DocCodeBlockKind::Indented));
    assert_eq!(matcher.is_matched(&indented), Ok(false));
}

#[test]
fn text_matcher_applies_its_pattern() {
    let matcher = MarkdownEvent::Text("^TODO".to_string());
    assert_eq!(matcher.is_matched(&DocEvent::Text("TODO: buy milk".to_string())), Ok(true));
    assert_eq!(matcher.is_matched(&DocEvent::Text("done".to_string())), Ok(false));
}

#[test]
fn task_list_matcher_matches_any_marker() {
    assert_eq!(MarkdownEvent::TaskList.is_matched(&DocEvent::TaskListMarker(true)), Ok(true));
    assert_eq!(MarkdownEvent::TaskList.is_matched(&DocEvent::TaskListMarker(false)), Ok(true));
    assert_eq!(MarkdownEvent::TaskList.is_matched(&DocEvent::Text("x".to_string())), Ok(false));
}

#[test]
fn structural_matcher_compares_discriminant_only() {
    let matcher = MarkdownEvent::Tag(Tag::Heading(None, Some("^intro$".to_string()), Vec::new()));
    let concrete = DocEvent::Start(DocTag::Heading(
        kasuku::events::HeadingLevel::H2,
        Some("other".to_string()),
        Vec::new(),
    ));
    assert_eq!(matcher.is_matched(&concrete), Ok(true));
}

#[test]
fn invalid_pattern_is_an_error_not_a_non_match() {
    let matcher = MarkdownEvent::Text("(unclosed".to_string());
    let r = matcher.is_matched(&DocEvent::Text("anything".to_string()));
    assert!(matches!(r, Err(Error::Regex(_))));
}

#[test]
fn invalid_pattern_is_not_consulted_on_other_discriminants() {
    let matcher = MarkdownEvent::Text("(unclosed".to_string());
    assert_eq!(matcher.is_matched(&DocEvent::TaskListMarker(false)), Ok(false));
}

#[test]
fn codec_round_trips_every_matcher_form() {
    let cases = vec![
        MarkdownEvent::TaskList,
        MarkdownEvent::Text("^TODO".to_string()),
        MarkdownEvent::InlineCode("code".to_string()),
        MarkdownEvent::FootNote("note".to_string()),
        MarkdownEvent::Tag(Tag::Paragraph),
        MarkdownEvent::Tag(Tag::BlockQuote),
        MarkdownEvent::Tag(Tag::CodeBlock(CodeBlockKind::Indented)),
        MarkdownEvent::Tag(Tag::CodeBlock(CodeBlockKind::Fenced("dataview".to_string()))),
        MarkdownEvent::Tag(Tag::List),
        MarkdownEvent::Tag(Tag::Item),
        MarkdownEvent::Tag(Tag::FootnoteDefinition("label".to_string())),
        MarkdownEvent::Tag(Tag::TableHead),
        MarkdownEvent::Tag(Tag::TableRow),
        MarkdownEvent::Tag(Tag::TableCell),
        MarkdownEvent::Tag(Tag::Emphasis),
        MarkdownEvent::Tag(Tag::Strong),
        MarkdownEvent::Tag(Tag::Strikethrough),
    ];
    for m in cases {
        let encoded = kasuku::codec::encode_matcher(&m);
        let decoded = kasuku::codec::decode_matcher(encoded.as_str()).unwrap();
        assert_eq!(decoded, m);
    }
}

#[test]
fn codec_drops_unconsulted_fields_but_keeps_semantics() {
    let m = MarkdownEvent::Tag(Tag::Heading(None, Some("^x$".to_string()), Vec::new()));
    let encoded = kasuku::codec::encode_matcher(&m);
    assert_eq!(encoded, "Tag:Heading");
    let decoded = kasuku::codec::decode_matcher(encoded.as_str()).unwrap();
    let heading = DocEvent::Start(DocTag::Heading(kasuku::events::HeadingLevel::H1, None, Vec::new()));
    assert_eq!(decoded.is_matched(&heading), m.is_matched(&heading));
}

#[test]
fn codec_rejects_an_unknown_payload() {
    let r = kasuku::codec::decode_matcher("NotAMatcher");
    assert!(matches!(r, Err(Error::Serialization(_))));
}

#[test]
fn fenced_pattern_survives_the_codec() {
    let m = MarkdownEvent::Tag(Tag::CodeBlock(CodeBlockKind::Fenced("/dataview/".to_string())));
    let encoded = kasuku::codec::encode_matcher(&m);
    assert_eq!(encoded, "Tag:CodeBlock:Fenced:/dataview/");
    assert_eq!(kasuku::codec::decode_matcher(&encoded).unwrap(), m);
}
