//! The trusted layer in front of the Markdown engine.
//!
//! What the engine renders is, with one exception, a function of the source
//! text, the options the document was parsed under, and the options it is
//! rendered under. Each output format's result is given a name
//! ([`engine_html_of`] and its siblings); the wrappers below assert nothing
//! else of the engine. The exception is the HTML renderer's code-block
//! attributes: it collects them in a hash map and writes them in iteration
//! order, so with two or more attributes on one tag the output can differ
//! between two calls on equal inputs. The HTML wrapper therefore asserts
//! equality with its name only under render options that keep every such
//! tag at one attribute at most ([`html_deterministic`]). The marshalling
//! functions move this crate's options record, field for field, onto the
//! engine's own record. Rendering hooks are attached at the host boundary,
//! never here, so the names speak of hook-free rendering.

use vstd::prelude::*;

verus! {

#[verifier::external_type_specification]
#[verifier::external_body]
/// The engine's own options record, opaque to verification.
pub struct ExEngineOptions<'c>(comrak::Options<'c>);

/// Whether the engine's HTML output is a function of its inputs. With the
/// full-info-string and sourcepos render switches off, every `<pre>` and
/// `<code>` tag carries at most one attribute, so the renderer's
/// hash-ordered attribute writing has nothing to reorder.
pub open spec fn html_deterministic(rendered_with: crate::options::ConfigV) -> bool {
    !rendered_with.render.full_info_string && !rendered_with.render.sourcepos
}

/// The engine's HTML output for a document parsed under one options record
/// and rendered under another, with no hooks attached and the render
/// options within [`html_deterministic`].
pub uninterp spec fn engine_html_of(
    md: Seq<char>,
    parsed_with: crate::options::ConfigV,
    rendered_with: crate::options::ConfigV,
) -> Seq<char>;

/// The engine's XML output, as [`engine_html_of`].
pub uninterp spec fn engine_xml_of(
    md: Seq<char>,
    parsed_with: crate::options::ConfigV,
    rendered_with: crate::options::ConfigV,
) -> Seq<char>;

/// The engine's CommonMark output, as [`engine_html_of`].
pub uninterp spec fn engine_commonmark_of(
    md: Seq<char>,
    parsed_with: crate::options::ConfigV,
    rendered_with: crate::options::ConfigV,
) -> Seq<char>;

/// Marshals the first half of the extension flags onto the engine record.
#[verifier::external_body]
fn fill_extension_a(e: &crate::options::ExtensionOptions, c: &mut comrak::Options<'static>) {
    c.extension.autolink = e.autolink;
    c.extension.description_lists = e.description_lists;
    c.extension.footnotes = e.footnotes;
    c.extension.strikethrough = e.strikethrough;
    c.extension.superscript = e.superscript;
    c.extension.table = e.table;
    c.extension.tagfilter = e.tagfilter;
    c.extension.tasklist = e.tasklist;
    c.extension.multiline_block_quotes = e.multiline_block_quotes;
    c.extension.alerts = e.alerts;
    c.extension.math_dollars = e.math_dollars;
}

/// Marshals the second half of the extension flags onto the engine record.
#[verifier::external_body]
fn fill_extension_b(e: &crate::options::ExtensionOptions, c: &mut comrak::Options<'static>) {
    c.extension.math_code = e.math_code;
    c.extension.front_matter_delimiter = e.front_matter_delimiter.clone();
    c.extension.header_ids = e.header_ids.clone();
    c.extension.wikilinks_title_after_pipe = e.wikilinks_title_after_pipe;
    c.extension.wikilinks_title_before_pipe = e.wikilinks_title_before_pipe;
    c.extension.underline = e.underline;
    c.extension.subscript = e.subscript;
    c.extension.spoiler = e.spoiler;
    c.extension.greentext = e.greentext;
    c.extension.cjk_friendly_emphasis = e.cjk_friendly_emphasis;
}

/// Marshals the parse flags onto the engine record.
#[verifier::external_body]
fn fill_parse(p: &crate::options::ParseOptions, c: &mut comrak::Options<'static>) {
    c.parse.default_info_string = p.default_info_string.clone();
    c.parse.smart = p.smart;
    c.parse.relaxed_tasklist_matching = p.relaxed_tasklist_matching;
    c.parse.relaxed_autolinks = p.relaxed_autolinks;
}

/// Marshals the first half of the render flags onto the engine record; the
/// decoder bounds the integer options at `u32::MAX`, so the casts to the
/// engine's machine word are exact on every supported target.
#[verifier::external_body]
fn fill_render_a(r: &crate::options::RenderOptions, c: &mut comrak::Options<'static>) {
    c.render.escape = r.escape;
    c.render.github_pre_lang = r.github_pre_lang;
    c.render.hardbreaks = r.hardbreaks;
    c.render.unsafe_ = r.unsafe_;
    c.render.width = r.width as usize;
    c.render.full_info_string = r.full_info_string;
    c.render.sourcepos = r.sourcepos;
    c.render.escaped_char_spans = r.escaped_char_spans;
    c.render.ignore_setext = r.ignore_setext;
}

/// Marshals the second half of the render flags onto the engine record.
#[verifier::external_body]
fn fill_render_b(r: &crate::options::RenderOptions, c: &mut comrak::Options<'static>) {
    c.render.ignore_empty_links = r.ignore_empty_links;
    c.render.gfm_quirks = r.gfm_quirks;
    c.render.prefer_fenced = r.prefer_fenced;
    c.render.figure_with_caption = r.figure_with_caption;
    c.render.tasklist_classes = r.tasklist_classes;
    c.render.ol_width = r.ol_width as usize;
    c.render.experimental_minimize_commonmark = r.experimental_minimize_commonmark;
    c.render.list_style = match r.list_style {
        crate::options::ListStyleType::Dash => comrak::ListStyleType::Dash,
        crate::options::ListStyleType::Plus => comrak::ListStyleType::Plus,
        crate::options::ListStyleType::Star => comrak::ListStyleType::Star,
    };
}

/// Builds the engine's options record from this crate's, starting from the
/// engine's defaults.
#[verifier::external_body]
fn to_engine(o: &crate::options::Config) -> comrak::Options<'static> {
    let mut c = comrak::Options::default();
    fill_extension_a(&o.extension, &mut c);
    fill_extension_b(&o.extension, &mut c);
    fill_parse(&o.parse, &mut c);
    fill_render_a(&o.render, &mut c);
    fill_render_b(&o.render, &mut c);
    c
}

/// Relies on comrak::parse_document and comrak::format_html: under render
/// options within [`html_deterministic`] the output depends on the source
/// text and the two records alone; with the full-info-string or sourcepos
/// switch on, the renderer's hash-ordered code-block attributes make the
/// output unstable, and nothing is asserted of it. Rendering into a String
/// cannot fail; comrak::markdown_to_html itself unwraps this call.
#[verifier::external_body]
pub(crate) fn engine_render_html(
    md: &str,
    parsed_with: &crate::options::Config,
    rendered_with: &crate::options::Config,
) -> (r: String)
    ensures
        html_deterministic(rendered_with@) ==> r@ == engine_html_of(
            md@,
            parsed_with@,
            rendered_with@,
        ),
{
    let arena = comrak::Arena::new();
    let root = comrak::parse_document(&arena, md, &to_engine(parsed_with));
    let mut out = String::new();
    comrak::format_html(root, &to_engine(rendered_with), &mut out).unwrap();
    out
}

/// Relies on comrak::parse_document and comrak::format_xml, exactly as the
/// HTML wrapper relies on its formatter.
#[verifier::external_body]
pub(crate) fn engine_render_xml(
    md: &str,
    parsed_with: &crate::options::Config,
    rendered_with: &crate::options::Config,
) -> (r: String)
    ensures
        r@ == engine_xml_of(md@, parsed_with@, rendered_with@),
{
    let arena = comrak::Arena::new();
    let root = comrak::parse_document(&arena, md, &to_engine(parsed_with));
    let mut out = String::new();
    comrak::format_xml(root, &to_engine(rendered_with), &mut out).unwrap();
    out
}

/// Relies on comrak::parse_document and comrak::format_commonmark, exactly
/// as the HTML wrapper relies on its formatter.
#[verifier::external_body]
pub(crate) fn engine_render_commonmark(
    md: &str,
    parsed_with: &crate::options::Config,
    rendered_with: &crate::options::Config,
) -> (r: String)
    ensures
        r@ == engine_commonmark_of(md@, parsed_with@, rendered_with@),
{
    let arena = comrak::Arena::new();
    let root = comrak::parse_document(&arena, md, &to_engine(parsed_with));
    let mut out = String::new();
    comrak::format_commonmark(root, &to_engine(rendered_with), &mut out).unwrap();
    out
}

/// Relies on comrak::version, which returns the engine crate's own
/// compile-time package version; the dependency is pinned to exactly this
/// version.
#[verifier::external_body]
pub fn version() -> (r: String)
    ensures
        r@ == "0.44.0"@,
{
    comrak::version().to_owned()
}

} // verus!
