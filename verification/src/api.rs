//! The public entry points: source text or a parsed document in, a rendered
//! string out, under a host-supplied configuration value.
//!
//! Every entry point is the same straight pipeline: decode the options,
//! invoke the engine, return the string or the decode error. The engine
//! offers no plain serialization of its tree, so a parsed document is
//! carried as the pair that determines it — the source text and the options
//! it was parsed under — and the formatting entry points re-derive the tree
//! from that pair; the engine is deterministic, so nothing is lost.

use vstd::prelude::*;

use crate::decode::{decode_options, spec_decode};
use crate::engine::{
    engine_commonmark_of, engine_html_of, engine_render_commonmark, engine_render_html,
    engine_render_xml, engine_xml_of, html_deterministic,
};
use crate::error::{Error, ErrorV};
use crate::host::HostValue;
use crate::options::{Config, ConfigV};

verus! {

/// A parsed document: the source text and the options it was parsed under,
/// which together determine the engine's tree.
#[derive(Debug, Clone)]
pub struct Ast {
    pub source: String,
    pub options: Config,
}

/// Mathematical view of [`Ast`].
pub ghost struct AstV {
    pub source: Seq<char>,
    pub options: ConfigV,
}

impl View for Ast {
    type V = AstV;

    open spec fn view(&self) -> AstV {
        AstV { source: self.source@, options: self.options@ }
    }
}

impl Ast {
    /// Rebuild a document value from its parts, as the host boundary does
    /// when a tree is handed back in.
    pub fn from_parts(source: String, options: Config) -> (a: Ast)
        ensures
            a@.source == source@,
            a@.options == options@,
    {
        Ast { source, options }
    }
}

/// What rendering source text to HTML yields for every input: the engine's
/// output under the decoded options, or the decode error.
pub open spec fn spec_markdown_to_html(md: Seq<char>, v: HostValue) -> Result<Seq<char>, ErrorV> {
    match spec_decode(v) {
        Ok(o) => Ok(engine_html_of(md, o, o)),
        Err(e) => Err(ErrorV::Decode(e)),
    }
}

/// What rendering source text to XML yields, as [`spec_markdown_to_html`].
pub open spec fn spec_markdown_to_xml(md: Seq<char>, v: HostValue) -> Result<Seq<char>, ErrorV> {
    match spec_decode(v) {
        Ok(o) => Ok(engine_xml_of(md, o, o)),
        Err(e) => Err(ErrorV::Decode(e)),
    }
}

/// What rendering source text back to CommonMark yields, as
/// [`spec_markdown_to_html`].
pub open spec fn spec_markdown_to_commonmark(md: Seq<char>, v: HostValue) -> Result<
    Seq<char>,
    ErrorV,
> {
    match spec_decode(v) {
        Ok(o) => Ok(engine_commonmark_of(md, o, o)),
        Err(e) => Err(ErrorV::Decode(e)),
    }
}

/// What parsing yields: a document value carrying the source and the
/// decoded options, or the decode error.
pub open spec fn spec_parse_document(md: Seq<char>, v: HostValue) -> Result<AstV, ErrorV> {
    match spec_decode(v) {
        Ok(o) => Ok(AstV { source: md, options: o }),
        Err(e) => Err(ErrorV::Decode(e)),
    }
}

/// What formatting a parsed document to HTML yields: the engine's output
/// for a tree parsed under the document's options and rendered under the
/// freshly decoded ones.
pub open spec fn spec_format_html(a: AstV, v: HostValue) -> Result<Seq<char>, ErrorV> {
    match spec_decode(v) {
        Ok(o) => Ok(engine_html_of(a.source, a.options, o)),
        Err(e) => Err(ErrorV::Decode(e)),
    }
}

/// As [`spec_format_html`], for XML.
pub open spec fn spec_format_xml(a: AstV, v: HostValue) -> Result<Seq<char>, ErrorV> {
    match spec_decode(v) {
        Ok(o) => Ok(engine_xml_of(a.source, a.options, o)),
        Err(e) => Err(ErrorV::Decode(e)),
    }
}

/// As [`spec_format_html`], for CommonMark.
pub open spec fn spec_format_commonmark(a: AstV, v: HostValue) -> Result<Seq<char>, ErrorV> {
    match spec_decode(v) {
        Ok(o) => Ok(engine_commonmark_of(a.source, a.options, o)),
        Err(e) => Err(ErrorV::Decode(e)),
    }
}

/// Render Markdown source text to HTML under a host configuration value.
/// The result is pinned to the named engine output wherever the render
/// options keep that output deterministic; see [`html_deterministic`].
pub fn markdown_to_html(md: &str, options: &HostValue) -> (r: Result<String, Error>)
    ensures
        match r {
            Ok(s) => {
                &&& spec_decode(*options) is Ok
                &&& html_deterministic(spec_decode(*options)->Ok_0)
                    ==> spec_markdown_to_html(md@, *options) == Ok::<Seq<char>, ErrorV>(s@)
            },
            Err(e) => spec_markdown_to_html(md@, *options) == Err::<Seq<char>, ErrorV>(e@),
        },
{
    match decode_options(options) {
        Ok(o) => Ok(engine_render_html(md, &o, &o)),
        Err(e) => Err(Error::Decode(e)),
    }
}

/// Render Markdown source text to XML under a host configuration value.
pub fn markdown_to_xml(md: &str, options: &HostValue) -> (r: Result<String, Error>)
    ensures
        match r {
            Ok(s) => spec_markdown_to_xml(md@, *options) == Ok::<Seq<char>, ErrorV>(s@),
            Err(e) => spec_markdown_to_xml(md@, *options) == Err::<Seq<char>, ErrorV>(e@),
        },
{
    match decode_options(options) {
        Ok(o) => Ok(engine_render_xml(md, &o, &o)),
        Err(e) => Err(Error::Decode(e)),
    }
}

/// Render Markdown source text back to CommonMark under a host
/// configuration value.
pub fn markdown_to_commonmark(md: &str, options: &HostValue) -> (r: Result<String, Error>)
    ensures
        match r {
            Ok(s) => spec_markdown_to_commonmark(md@, *options) == Ok::<Seq<char>, ErrorV>(s@),
            Err(e) => spec_markdown_to_commonmark(md@, *options) == Err::<Seq<char>, ErrorV>(e@),
        },
{
    match decode_options(options) {
        Ok(o) => Ok(engine_render_commonmark(md, &o, &o)),
        Err(e) => Err(Error::Decode(e)),
    }
}

/// Parse Markdown source text into a document value under a host
/// configuration value.
pub fn parse_document(md: &str, options: &HostValue) -> (r: Result<Ast, Error>)
    ensures
        match r {
            Ok(a) => spec_parse_document(md@, *options) == Ok::<AstV, ErrorV>(a@),
            Err(e) => spec_parse_document(md@, *options) == Err::<AstV, ErrorV>(e@),
        },
{
    match decode_options(options) {
        Ok(o) => Ok(Ast { source: md.to_owned(), options: o }),
        Err(e) => Err(Error::Decode(e)),
    }
}

/// Format a parsed document to HTML under a host configuration value. As
/// with [`markdown_to_html`], the result is pinned wherever the render
/// options keep the engine's HTML output deterministic.
pub fn format_html(ast: &Ast, options: &HostValue) -> (r: Result<String, Error>)
    ensures
        match r {
            Ok(s) => {
                &&& spec_decode(*options) is Ok
                &&& html_deterministic(spec_decode(*options)->Ok_0)
                    ==> spec_format_html(ast@, *options) == Ok::<Seq<char>, ErrorV>(s@)
            },
            Err(e) => spec_format_html(ast@, *options) == Err::<Seq<char>, ErrorV>(e@),
        },
{
    match decode_options(options) {
        Ok(o) => Ok(engine_render_html(ast.source.as_str(), &ast.options, &o)),
        Err(e) => Err(Error::Decode(e)),
    }
}

/// Format a parsed document to XML under a host configuration value.
pub fn format_xml(ast: &Ast, options: &HostValue) -> (r: Result<String, Error>)
    ensures
        match r {
            Ok(s) => spec_format_xml(ast@, *options) == Ok::<Seq<char>, ErrorV>(s@),
            Err(e) => spec_format_xml(ast@, *options) == Err::<Seq<char>, ErrorV>(e@),
        },
{
    match decode_options(options) {
        Ok(o) => Ok(engine_render_xml(ast.source.as_str(), &ast.options, &o)),
        Err(e) => Err(Error::Decode(e)),
    }
}

/// Format a parsed document back to CommonMark under a host configuration
/// value.
pub fn format_commonmark(ast: &Ast, options: &HostValue) -> (r: Result<String, Error>)
    ensures
        match r {
            Ok(s) => spec_format_commonmark(ast@, *options) == Ok::<Seq<char>, ErrorV>(s@),
            Err(e) => spec_format_commonmark(ast@, *options) == Err::<Seq<char>, ErrorV>(e@),
        },
{
    match decode_options(options) {
        Ok(o) => Ok(engine_render_commonmark(ast.source.as_str(), &ast.options, &o)),
        Err(e) => Err(Error::Decode(e)),
    }
}

/// Formatting a freshly parsed document under the same options equals
/// rendering the source directly: for every source text and options value,
/// `format_html(parse_document(S, O), O)` and `markdown_to_html(S, O)`
/// agree, and parse failures surface identically. The entry points attain
/// these specified outputs whenever the render options keep the engine's
/// HTML output deterministic; see [`html_deterministic`].
pub proof fn lemma_ast_round_trip(md: Seq<char>, v: HostValue)
    ensures
        match spec_parse_document(md, v) {
            Ok(a) => spec_format_html(a, v) == spec_markdown_to_html(md, v),
            Err(e) => spec_markdown_to_html(md, v) == Err::<Seq<char>, ErrorV>(e),
        },
{
}

/// Under an absent configuration value the entry point returns exactly the
/// engine's output for the default options: the canonical rendering. The
/// defaults keep the engine's HTML output deterministic, so the entry
/// point's contract pins the result in full.
pub proof fn lemma_default_render(md: Seq<char>)
    ensures
        spec_markdown_to_html(md, HostValue::Absent) == Ok::<Seq<char>, ErrorV>(
            engine_html_of(md, ConfigV::spec_default(), ConfigV::spec_default()),
        ),
        html_deterministic(ConfigV::spec_default()),
{
}

/// A malformed options value never renders: the entry point returns a type
/// error carrying the decoder's verdict, whose message names the offending
/// field's path.
pub proof fn lemma_malformed_options_rejected(md: Seq<char>, v: HostValue)
    requires
        spec_decode(v) is Err,
    ensures
        spec_markdown_to_html(md, v) == Err::<Seq<char>, ErrorV>(
            ErrorV::Decode(spec_decode(v)->Err_0),
        ),
        crate::error::spec_message(ErrorV::Decode(spec_decode(v)->Err_0)).subrange(
            "type error: "@.len() as int,
            ("type error: "@.len() + spec_decode(v)->Err_0.path.len()) as int,
        ) == spec_decode(v)->Err_0.path,
{
    crate::error::lemma_message_names_path(spec_decode(v)->Err_0);
}

} // verus!
