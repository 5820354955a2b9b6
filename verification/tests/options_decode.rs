use comrak_bridge::api::markdown_to_html;
use comrak_bridge::decode::{decode_options, DecodeErrorKind};
use comrak_bridge::host::HostValue;
use comrak_bridge::options::ListStyleType;

fn obj(fields: Vec<(&str, HostValue)>) -> HostValue {
    HostValue::Obj(fields.into_iter().map(|(k, v)| (k.to_string(), v)).collect())
}

#[test]
fn absent_options_decode_to_defaults() {
    let o = decode_options(&HostValue::Absent).unwrap();
    assert!(o.extension.autolink);
    assert!(o.extension.description_lists);
    assert!(o.extension.footnotes);
    assert!(o.extension.strikethrough);
    assert!(o.extension.superscript);
    assert!(o.extension.table);
    assert!(o.extension.tagfilter);
    assert!(o.extension.tasklist);
    assert!(!o.extension.multiline_block_quotes);
    assert!(!o.extension.wikilinks_title_after_pipe);
    assert!(!o.extension.wikilinks_title_before_pipe);
    assert_eq!(o.extension.front_matter_delimiter, None);
    assert_eq!(o.extension.header_ids, None);
    assert!(o.parse.smart);
    assert_eq!(o.parse.default_info_string, None);
    assert_eq!(o.parse.broken_link_callback, None);
    assert!(o.render.escape);
    assert!(o.render.github_pre_lang);
    assert!(!o.render.hardbreaks);
    assert!(!o.render.unsafe_);
    assert_eq!(o.render.width, 80);
    assert_eq!(o.render.ol_width, 0);
    assert_eq!(o.render.list_style, ListStyleType::Dash);
}

#[test]
fn nested_field_overrides_default() {
    let v = obj(vec![("extension", obj(vec![("autolink", HostValue::Bool(false))]))]);
    let o = decode_options(&v).unwrap();
    assert!(!o.extension.autolink);
    assert!(o.extension.table);
}

#[test]
fn flat_field_overrides_default() {
    let v = obj(vec![("extension_autolink", HostValue::Bool(false))]);
    let o = decode_options(&v).unwrap();
    assert!(!o.extension.autolink);
}

#[test]
fn nested_form_wins_over_flat() {
    let v = obj(vec![
        ("extension", obj(vec![("autolink", HostValue::Bool(false))])),
        ("extension_autolink", HostValue::Bool(true)),
    ]);
    let o = decode_options(&v).unwrap();
    assert!(!o.extension.autolink);
}

#[test]
fn absent_field_value_takes_default() {
    let v = obj(vec![("extension", obj(vec![("autolink", HostValue::Absent)]))]);
    let o = decode_options(&v).unwrap();
    assert!(o.extension.autolink);
}

#[test]
fn unknown_top_key_is_rejected() {
    let v = obj(vec![("bogus", HostValue::Bool(true))]);
    let e = decode_options(&v).unwrap_err();
    assert_eq!(e.path, "bogus");
    assert_eq!(e.kind, DecodeErrorKind::UnknownField);
}

#[test]
fn unknown_section_key_is_rejected_with_path() {
    let v = obj(vec![("extension", obj(vec![("bogus", HostValue::Bool(true))]))]);
    let e = decode_options(&v).unwrap_err();
    assert_eq!(e.path, "extension.bogus");
    assert_eq!(e.kind, DecodeErrorKind::UnknownField);
}

#[test]
fn type_mismatch_is_rejected_with_path() {
    let v = obj(vec![("render", obj(vec![("width", HostValue::Str("80".to_string()))]))]);
    let e = decode_options(&v).unwrap_err();
    assert_eq!(e.path, "render.width");
    assert_eq!(e.kind, DecodeErrorKind::ExpectedInteger);
}

#[test]
fn oversized_width_is_rejected() {
    let v = obj(vec![("render", obj(vec![("width", HostValue::UInt(4294967296))]))]);
    let e = decode_options(&v).unwrap_err();
    assert_eq!(e.path, "render.width");
    assert_eq!(e.kind, DecodeErrorKind::IntegerOutOfRange);
    let v = obj(vec![("render", obj(vec![("ol_width", HostValue::UInt(4294967295))]))]);
    let o = decode_options(&v).unwrap();
    assert_eq!(o.render.ol_width, 4294967295);
}

#[test]
fn non_object_options_are_rejected() {
    let e = decode_options(&HostValue::UInt(3)).unwrap_err();
    assert_eq!(e.path, "options");
    assert_eq!(e.kind, DecodeErrorKind::NotAnObject);
}

#[test]
fn non_object_section_is_rejected() {
    let v = obj(vec![("render", HostValue::Bool(true))]);
    let e = decode_options(&v).unwrap_err();
    assert_eq!(e.path, "render");
    assert_eq!(e.kind, DecodeErrorKind::ExpectedObject);
}

#[test]
fn entry_point_reports_type_error_with_field_path() {
    let v = obj(vec![("extension", obj(vec![("autolink", HostValue::UInt(1))]))]);
    let e = markdown_to_html("# x", &v).unwrap_err();
    assert_eq!(e.message(), "type error: extension.autolink: expected a boolean");
}

#[test]
fn list_style_decodes_case_insensitively() {
    for (wire, want) in [
        ("dash", ListStyleType::Dash),
        ("Plus", ListStyleType::Plus),
        ("sTaR", ListStyleType::Star),
    ] {
        let v = obj(vec![("render", obj(vec![("list_style", HostValue::Str(wire.to_string()))]))]);
        let o = decode_options(&v).unwrap();
        assert_eq!(o.render.list_style, want, "{wire}");
    }
}

#[test]
fn bad_list_style_is_rejected() {
    let v = obj(vec![("render", obj(vec![("list_style", HostValue::Str("dot".to_string()))]))]);
    let e = decode_options(&v).unwrap_err();
    assert_eq!(e.path, "render.list_style");
    assert_eq!(e.kind, DecodeErrorKind::ExpectedEnum);
}

#[test]
fn wikilinks_title_after_selects_after_pipe() {
    let v = obj(vec![(
        "extension",
        obj(vec![("wikilinks_title", HostValue::Str("AFTER".to_string()))]),
    )]);
    let o = decode_options(&v).unwrap();
    assert!(o.extension.wikilinks_title_after_pipe);
    assert!(!o.extension.wikilinks_title_before_pipe);
}

#[test]
fn wikilinks_title_before_selects_before_pipe() {
    let v = obj(vec![(
        "extension",
        obj(vec![("wikilinks_title", HostValue::Str("before".to_string()))]),
    )]);
    let o = decode_options(&v).unwrap();
    assert!(!o.extension.wikilinks_title_after_pipe);
    assert!(o.extension.wikilinks_title_before_pipe);
}

#[test]
fn both_wikilink_sides_are_rejected() {
    let v = obj(vec![
        ("extension_wikilinks_title_after_pipe", HostValue::Bool(true)),
        ("extension_wikilinks_title_before_pipe", HostValue::Bool(true)),
    ]);
    let e = decode_options(&v).unwrap_err();
    assert_eq!(e.path, "extension.wikilinks_title");
    assert_eq!(e.kind, DecodeErrorKind::ConflictingWikilinkSides);
}

#[test]
fn one_wikilink_side_is_accepted() {
    let v = obj(vec![("extension_wikilinks_title_after_pipe", HostValue::Bool(true))]);
    let o = decode_options(&v).unwrap();
    assert!(o.extension.wikilinks_title_after_pipe);
    assert!(!o.extension.wikilinks_title_before_pipe);
}

#[test]
fn callable_fields_carry_handles() {
    let v = obj(vec![
        ("parse", obj(vec![("broken_link_callback", HostValue::Callable(7))])),
        ("extension", obj(vec![("link_url_rewriter", HostValue::Callable(9))])),
    ]);
    let o = decode_options(&v).unwrap();
    assert_eq!(o.parse.broken_link_callback, Some(7));
    assert_eq!(o.extension.link_url_rewriter, Some(9));
    assert_eq!(o.extension.image_url_rewriter, None);
}

#[test]
fn non_callable_hook_field_is_rejected() {
    let v = obj(vec![("parse", obj(vec![("broken_link_callback", HostValue::Bool(true))]))]);
    let e = decode_options(&v).unwrap_err();
    assert_eq!(e.path, "parse.broken_link_callback");
    assert_eq!(e.kind, DecodeErrorKind::ExpectedCallable);
}

#[test]
fn string_fields_decode() {
    let v = obj(vec![
        ("extension", obj(vec![("header_ids", HostValue::Str("user-".to_string()))])),
        ("parse", obj(vec![("default_info_string", HostValue::Str("rust".to_string()))])),
    ]);
    let o = decode_options(&v).unwrap();
    assert_eq!(o.extension.header_ids.as_deref(), Some("user-"));
    assert_eq!(o.parse.default_info_string.as_deref(), Some("rust"));
}

#[test]
fn list_style_codepoints_round_trip() {
    for s in [ListStyleType::Dash, ListStyleType::Plus, ListStyleType::Star] {
        assert_eq!(ListStyleType::from_codepoint(s.codepoint()), Some(s));
    }
    assert_eq!(ListStyleType::Dash.codepoint(), 45);
    assert_eq!(ListStyleType::Plus.codepoint(), 43);
    assert_eq!(ListStyleType::Star.codepoint(), 42);
    assert_eq!(ListStyleType::from_codepoint(46), None);
}
