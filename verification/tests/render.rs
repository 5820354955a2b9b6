use comrak_bridge::api::{
    format_commonmark, format_html, format_xml, markdown_to_commonmark, markdown_to_html,
    parse_document,
};
use comrak_bridge::engine::version;
use comrak_bridge::host::HostValue;

fn obj(fields: Vec<(&str, HostValue)>) -> HostValue {
    HostValue::Obj(fields.into_iter().map(|(k, v)| (k.to_string(), v)).collect())
}

#[test]
fn heading_renders_to_html() {
    let out = markdown_to_html("# hi", &HostValue::Absent).unwrap();
    assert_eq!(out, "<h1>hi</h1>\n");
}

#[test]
fn empty_options_object_means_defaults() {
    let out = markdown_to_html("# hi", &obj(vec![])).unwrap();
    assert_eq!(out, "<h1>hi</h1>\n");
}

#[test]
fn version_is_the_locked_engine_version() {
    assert_eq!(version(), "0.44.0");
}

#[test]
fn default_extensions_are_on() {
    // strikethrough, table and autolink default to on in this adapter.
    let out = markdown_to_html("~~gone~~", &HostValue::Absent).unwrap();
    assert!(out.contains("<del>gone</del>"), "{out}");
    let out = markdown_to_html("www.example.com", &HostValue::Absent).unwrap();
    assert!(out.contains("<a href="), "{out}");
    let out = markdown_to_html("| a |\n|---|\n| b |", &HostValue::Absent).unwrap();
    assert!(out.contains("<table>"), "{out}");
}

#[test]
fn smart_punctuation_defaults_on() {
    let out = markdown_to_html("\"hi\" ...", &HostValue::Absent).unwrap();
    assert!(out.contains("\u{201c}hi\u{201d}"), "{out}");
}

#[test]
fn unsafe_html_is_clobbered_by_default() {
    let out = markdown_to_html("<script>x</script>", &HostValue::Absent).unwrap();
    assert!(!out.contains("<script>"), "{out}");
}

#[test]
fn plus_list_style_survives_commonmark_round_trip() {
    let opts = obj(vec![(
        "render",
        obj(vec![("list_style", HostValue::Str("plus".to_string()))]),
    )]);
    let once = markdown_to_commonmark("- a\n- b", &opts).unwrap();
    assert_eq!(once, "+ a\n+ b\n");
    let opts2 = obj(vec![(
        "render",
        obj(vec![("list_style", HostValue::Str("plus".to_string()))]),
    )]);
    let twice = markdown_to_commonmark(&once, &opts2).unwrap();
    assert_eq!(twice, "+ a\n+ b\n");
}

#[test]
fn star_list_style_renders_stars() {
    let opts = obj(vec![(
        "render",
        obj(vec![("list_style", HostValue::Str("STAR".to_string()))]),
    )]);
    let out = markdown_to_commonmark("- a", &opts).unwrap();
    assert_eq!(out, "* a\n");
}

#[test]
fn ast_round_trip_matches_direct_render() {
    let sources = ["# hi", "a *b* c\n\n- 1\n- 2", "| a |\n|---|\n| b |"];
    for src in sources {
        let ast = parse_document(src, &HostValue::Absent).unwrap();
        let via_ast = format_html(&ast, &HostValue::Absent).unwrap();
        let direct = markdown_to_html(src, &HostValue::Absent).unwrap();
        assert_eq!(via_ast, direct, "source: {src}");
    }
}

#[test]
fn ast_round_trip_commonmark_and_xml() {
    let src = "some *emphasis* here";
    let ast = parse_document(src, &HostValue::Absent).unwrap();
    assert_eq!(
        format_commonmark(&ast, &HostValue::Absent).unwrap(),
        markdown_to_commonmark(src, &HostValue::Absent).unwrap()
    );
    let xml = format_xml(&ast, &HostValue::Absent).unwrap();
    assert!(xml.contains("<emph"), "{xml}");
}

#[test]
fn render_width_wraps_commonmark() {
    let opts = obj(vec![("render", obj(vec![("width", HostValue::UInt(20))]))]);
    let out = markdown_to_commonmark("hello hello hello hello hello hello", &opts).unwrap();
    assert_eq!(out, "hello hello hello\nhello hello hello\n");
}

#[test]
fn hardbreaks_flag_reaches_engine() {
    let opts = obj(vec![("render", obj(vec![("hardbreaks", HostValue::Bool(true))]))]);
    let out = markdown_to_html("a\nb", &opts).unwrap();
    assert!(out.contains("<br />"), "{out}");
}

#[test]
fn front_matter_delimiter_reaches_engine() {
    let opts = obj(vec![(
        "extension",
        obj(vec![("front_matter_delimiter", HostValue::Str("---".to_string()))]),
    )]);
    let out = markdown_to_html("---\nlayout: x\n---\nText\n", &opts).unwrap();
    assert_eq!(out, "<p>Text</p>\n");
}
