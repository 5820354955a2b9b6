use std::collections::HashMap;
use std::fmt;
use std::fmt::Write as _;
use std::sync::atomic::{AtomicUsize, Ordering};
use std::sync::Arc;

use comrak_bridge::hooks::{
    broken_link_wire_value, hook_fragment, resolved_reference, rewritten_url, HeadingMeta,
    HookOutcome,
};
use comrak_bridge::host::HostValue;

fn obj(fields: Vec<(&str, HostValue)>) -> HostValue {
    HostValue::Obj(fields.into_iter().map(|(k, v)| (k.to_string(), v)).collect())
}

#[test]
fn thrown_hook_writes_nothing() {
    assert_eq!(hook_fragment(&HookOutcome::Threw), None);
}

#[test]
fn string_result_is_the_fragment() {
    let o = HookOutcome::Returned(HostValue::Str("<em>x</em>".to_string()));
    assert_eq!(hook_fragment(&o).as_deref(), Some("<em>x</em>"));
}

#[test]
fn non_string_result_writes_nothing() {
    assert_eq!(hook_fragment(&HookOutcome::Returned(HostValue::UInt(3))), None);
    assert_eq!(hook_fragment(&HookOutcome::Returned(HostValue::Absent)), None);
}

#[test]
fn thrown_rewriter_keeps_url() {
    assert_eq!(rewritten_url("http://a", &HookOutcome::Threw), "http://a");
}

#[test]
fn non_string_rewriter_keeps_url() {
    assert_eq!(
        rewritten_url("http://a", &HookOutcome::Returned(HostValue::Bool(true))),
        "http://a"
    );
    assert_eq!(rewritten_url("http://a", &HookOutcome::Returned(HostValue::Absent)), "http://a");
}

#[test]
fn string_rewriter_replaces_url() {
    let o = HookOutcome::Returned(HostValue::Str("/safe".to_string()));
    assert_eq!(rewritten_url("http://a", &o), "/safe");
}

#[test]
fn thrown_resolver_leaves_link_unresolved() {
    assert_eq!(resolved_reference(&HookOutcome::Threw).is_none(), true);
    assert!(resolved_reference(&HookOutcome::Returned(HostValue::Absent)).is_none());
    assert!(resolved_reference(&HookOutcome::Returned(HostValue::Str("x".to_string()))).is_none());
}

#[test]
fn object_result_is_coerced_to_reference() {
    let o = HookOutcome::Returned(obj(vec![
        ("url", HostValue::Str("/u".to_string())),
        ("title", HostValue::Str("t".to_string())),
    ]));
    let r = resolved_reference(&o).unwrap();
    assert_eq!(r.url, "/u");
    assert_eq!(r.title, "t");
}

#[test]
fn missing_reference_fields_default_to_empty() {
    let o = HookOutcome::Returned(obj(vec![("url", HostValue::Str("/u".to_string()))]));
    let r = resolved_reference(&o).unwrap();
    assert_eq!(r.url, "/u");
    assert_eq!(r.title, "");
    let o = HookOutcome::Returned(obj(vec![("title", HostValue::UInt(3))]));
    let r = resolved_reference(&o).unwrap();
    assert_eq!(r.url, "");
    assert_eq!(r.title, "");
}

#[test]
fn heading_meta_wire_shape() {
    let m = HeadingMeta { level: 2, content: "hi".to_string() };
    match m.wire_value() {
        HostValue::Obj(fields) => {
            assert_eq!(fields.len(), 2);
            assert_eq!(fields[0].0, "level");
            assert!(matches!(fields[0].1, HostValue::UInt(2)));
            assert_eq!(fields[1].0, "content");
            assert!(matches!(&fields[1].1, HostValue::Str(s) if s == "hi"));
        }
        other => panic!("not an object: {other:?}"),
    }
}

#[test]
fn broken_link_wire_shape() {
    match broken_link_wire_value("foo", "Foo") {
        HostValue::Obj(fields) => {
            assert_eq!(fields[0].0, "normalized");
            assert!(matches!(&fields[0].1, HostValue::Str(s) if s == "foo"));
            assert_eq!(fields[1].0, "original");
            assert!(matches!(&fields[1].1, HostValue::Str(s) if s == "Foo"));
        }
        other => panic!("not an object: {other:?}"),
    }
}

// The remaining tests wire the decision rules into the engine exactly as the
// host boundary does, and check the end-to-end output.

#[test]
fn resolver_outcome_drives_broken_link_rendering() {
    let mut options = comrak::Options::default();
    options.parse.broken_link_callback = Some(Arc::new(
        |_r: comrak::BrokenLinkReference| -> Option<comrak::ResolvedReference> {
            let outcome = HookOutcome::Returned(obj(vec![
                ("url", HostValue::Str("/u".to_string())),
                ("title", HostValue::Str("t".to_string())),
            ]));
            resolved_reference(&outcome)
                .map(|r| comrak::ResolvedReference { url: r.url, title: r.title })
        },
    ));
    let html = comrak::markdown_to_html("[x]", &options);
    assert!(html.contains("href=\"/u\""), "{html}");
    assert!(html.contains("title=\"t\""), "{html}");
}

#[test]
fn thrown_resolver_outcome_leaves_reference_text() {
    let mut options = comrak::Options::default();
    options.parse.broken_link_callback = Some(Arc::new(
        |_r: comrak::BrokenLinkReference| -> Option<comrak::ResolvedReference> {
            resolved_reference(&HookOutcome::Threw)
                .map(|r| comrak::ResolvedReference { url: r.url, title: r.title })
        },
    ));
    let html = comrak::markdown_to_html("[x]", &options);
    assert!(html.contains("[x]"), "{html}");
    assert!(!html.contains("<a "), "{html}");
}

#[test]
fn resolver_runs_once_per_unresolved_reference_only() {
    let count = Arc::new(AtomicUsize::new(0));
    let seen = count.clone();
    let mut options = comrak::Options::default();
    options.parse.broken_link_callback = Some(Arc::new(
        move |_r: comrak::BrokenLinkReference| -> Option<comrak::ResolvedReference> {
            seen.fetch_add(1, Ordering::SeqCst);
            None
        },
    ));
    let md = "[x]\n\nand [y][z] plus [x] again\n\n[z]: /z\n";
    let _ = comrak::markdown_to_html(md, &options);
    // `[y][z]` resolves against its definition; each unresolved use of `[x]`
    // asks the resolver once.
    assert_eq!(count.load(Ordering::SeqCst), 2);
}

#[test]
fn rewriter_outcome_drives_link_destination() {
    let mut options = comrak::Options::default();
    options.extension.link_url_rewriter = Some(Arc::new(|url: &str| -> String {
        let outcome = HookOutcome::Returned(HostValue::Str(format!("/{url}")));
        rewritten_url(url, &outcome)
    }));
    let html = comrak::markdown_to_html("[x](a)", &options);
    assert!(html.contains("href=\"/a\""), "{html}");
}

#[test]
fn thrown_rewriter_outcome_keeps_image_destination() {
    let mut options = comrak::Options::default();
    options.extension.image_url_rewriter = Some(Arc::new(|url: &str| -> String {
        rewritten_url(url, &HookOutcome::Threw)
    }));
    let html = comrak::markdown_to_html("![p](pic.png)", &options);
    assert!(html.contains("src=\"pic.png\""), "{html}");
}

struct FragmentHighlighter;

impl comrak::adapters::SyntaxHighlighterAdapter for FragmentHighlighter {
    fn write_highlighted(
        &self,
        output: &mut dyn fmt::Write,
        _lang: Option<&str>,
        code: &str,
    ) -> fmt::Result {
        let outcome = HookOutcome::Returned(HostValue::Str(format!("<em>{code}</em>")));
        if let Some(s) = hook_fragment(&outcome) {
            output.write_str(&s)?;
        }
        Ok(())
    }

    fn write_pre_tag(
        &self,
        output: &mut dyn fmt::Write,
        _attributes: HashMap<String, String>,
    ) -> fmt::Result {
        output.write_str("<pre>")
    }

    fn write_code_tag(
        &self,
        output: &mut dyn fmt::Write,
        _attributes: HashMap<String, String>,
    ) -> fmt::Result {
        output.write_str("<code>")
    }
}

#[test]
fn highlighter_fragment_reaches_output() {
    let options = comrak::Options::default();
    let mut plugins = comrak::Plugins::default();
    plugins.render.codefence_syntax_highlighter = Some(&FragmentHighlighter);
    let html = comrak::markdown_to_html_with_plugins("```ts\n1\n```", &options, &plugins);
    assert!(html.contains("<em>1\n</em>"), "{html}");
}

struct FragmentHeadings;

impl comrak::adapters::HeadingAdapter for FragmentHeadings {
    fn enter(
        &self,
        output: &mut dyn fmt::Write,
        heading: &comrak::adapters::HeadingMeta,
        _sourcepos: Option<comrak::nodes::Sourcepos>,
    ) -> fmt::Result {
        let outcome = HookOutcome::Returned(HostValue::Str(format!("<H>{}:", heading.content)));
        if let Some(s) = hook_fragment(&outcome) {
            output.write_str(&s)?;
        }
        Ok(())
    }

    fn exit(
        &self,
        output: &mut dyn fmt::Write,
        _heading: &comrak::adapters::HeadingMeta,
    ) -> fmt::Result {
        if let Some(s) = hook_fragment(&HookOutcome::Returned(HostValue::Str("</H>".to_string())))
        {
            output.write_str(&s)?;
        }
        Ok(())
    }
}

#[test]
fn heading_adapter_wraps_heading_body() {
    let options = comrak::Options::default();
    let mut plugins = comrak::Plugins::default();
    plugins.render.heading_adapter = Some(&FragmentHeadings);
    let html = comrak::markdown_to_html_with_plugins("# t", &options, &plugins);
    assert!(html.contains("<H>t:t</H>"), "{html}");
}
