//! The options decoder: a host value becomes a fully populated [`Config`]
//! record, or an error naming the offending field.
//!
//! An absent value yields the defaults. An object is decoded field by field:
//! unknown fields are rejected, type mismatches are rejected, absent fields
//! take their defaults. Each logical field is read from the nested section
//! object first (`extension.autolink`) and, failing that, from the
//! backwards-compatible flat key of the top object (`extension_autolink`).
//! Errors always carry the canonical nested path of the field.

use vstd::prelude::*;
use vstd::string::StringExecFns;

use crate::host::{HostValue, eq_ignore_case, get, lookup, str_eq};
use crate::options::{
    ExtensionOptions, ExtensionOptionsV, ListStyleType, Config, ConfigV, ParseOptions,
    ParseOptionsV, RenderOptions, RenderOptionsV, WikiLinksTitle,
};

verus! {

/// What went wrong with one field of the options value.
#[derive(Clone, Copy, PartialEq, Eq, Structural, Debug)]
pub enum DecodeErrorKind {
    /// The whole options value is neither absent nor an object.
    NotAnObject,
    ExpectedBool,
    ExpectedInteger,
    /// An integer field holds a value above the bounded range.
    IntegerOutOfRange,
    ExpectedString,
    /// A section value is present but not an object.
    ExpectedObject,
    ExpectedCallable,
    /// An enumeration field holds none of its short names.
    ExpectedEnum,
    UnknownField,
    /// Both wikilink title sides are selected at once.
    ConflictingWikilinkSides,
}

/// A rejected options value: the offending field's path and the reason.
#[derive(Debug, Clone)]
pub struct DecodeError {
    pub path: String,
    pub kind: DecodeErrorKind,
}

/// Mathematical view of [`DecodeError`].
pub ghost struct DecodeErrorV {
    pub path: Seq<char>,
    pub kind: DecodeErrorKind,
}

impl View for DecodeError {
    type V = DecodeErrorV;

    open spec fn view(&self) -> DecodeErrorV {
        DecodeErrorV { path: self.path@, kind: self.kind }
    }
}

/// A flat key's value counts only when it is present and not absent.
pub open spec fn spec_flat_value(top: Seq<(String, HostValue)>, flat: Seq<char>) -> Option<
    HostValue,
> {
    match lookup(top, flat) {
        Some(v) => if !(v is Absent) {
            Some(v)
        } else {
            None
        },
        None => None,
    }
}

/// The value governing one logical field: the nested binding when present
/// and not absent, else the flat binding, else nothing.
pub open spec fn spec_field_value(
    sec: Seq<(String, HostValue)>,
    name: Seq<char>,
    top: Seq<(String, HostValue)>,
    flat: Seq<char>,
) -> Option<HostValue> {
    match lookup(sec, name) {
        Some(v) => if !(v is Absent) {
            Some(v)
        } else {
            spec_flat_value(top, flat)
        },
        None => spec_flat_value(top, flat),
    }
}

fn field_value<'a>(
    sec: &'a Vec<(String, HostValue)>,
    name: &str,
    top: &'a Vec<(String, HostValue)>,
    flat: &str,
) -> (r: Option<&'a HostValue>)
    ensures
        match r {
            Some(v) => spec_field_value(sec@, name@, top@, flat@) == Some(*v),
            None => spec_field_value(sec@, name@, top@, flat@) is None,
        },
{
    let nested = get(sec, name);
    match nested {
        Some(v) => {
            if !matches!(v, HostValue::Absent) {
                return Some(v);
            }
        },
        None => {},
    }
    match get(top, flat) {
        Some(v) => {
            if !matches!(v, HostValue::Absent) {
                Some(v)
            } else {
                None
            }
        },
        None => None,
    }
}

/// A boolean field: absent takes the default.
pub open spec fn spec_bool_field(
    sec: Seq<(String, HostValue)>,
    name: Seq<char>,
    top: Seq<(String, HostValue)>,
    flat: Seq<char>,
    path: Seq<char>,
    default: bool,
) -> Result<bool, DecodeErrorV> {
    match spec_field_value(sec, name, top, flat) {
        None => Ok(default),
        Some(HostValue::Bool(b)) => Ok(b),
        Some(_) => Err(DecodeErrorV { path, kind: DecodeErrorKind::ExpectedBool }),
    }
}

fn bool_field(
    sec: &Vec<(String, HostValue)>,
    name: &str,
    top: &Vec<(String, HostValue)>,
    flat: &str,
    path: &str,
    default: bool,
) -> (r: Result<bool, DecodeError>)
    ensures
        match r {
            Ok(b) => spec_bool_field(sec@, name@, top@, flat@, path@, default) == Ok::<
                bool,
                DecodeErrorV,
            >(b),
            Err(e) => spec_bool_field(sec@, name@, top@, flat@, path@, default) == Err::<
                bool,
                DecodeErrorV,
            >(e@),
        },
{
    match field_value(sec, name, top, flat) {
        None => Ok(default),
        Some(HostValue::Bool(b)) => Ok(*b),
        Some(_) => Err(
            DecodeError { path: path.to_owned(), kind: DecodeErrorKind::ExpectedBool },
        ),
    }
}

/// A bounded non-negative integer field: absent takes the default, and a
/// value above `u32::MAX` is rejected, so a width always fits the engine's
/// machine word on every supported target.
pub open spec fn spec_uint_field(
    sec: Seq<(String, HostValue)>,
    name: Seq<char>,
    top: Seq<(String, HostValue)>,
    flat: Seq<char>,
    path: Seq<char>,
    default: u64,
) -> Result<u64, DecodeErrorV> {
    match spec_field_value(sec, name, top, flat) {
        None => Ok(default),
        Some(HostValue::UInt(n)) => if n <= u32::MAX as u64 {
            Ok(n)
        } else {
            Err(DecodeErrorV { path, kind: DecodeErrorKind::IntegerOutOfRange })
        },
        Some(_) => Err(DecodeErrorV { path, kind: DecodeErrorKind::ExpectedInteger }),
    }
}

fn uint_field(
    sec: &Vec<(String, HostValue)>,
    name: &str,
    top: &Vec<(String, HostValue)>,
    flat: &str,
    path: &str,
    default: u64,
) -> (r: Result<u64, DecodeError>)
    ensures
        match r {
            Ok(n) => spec_uint_field(sec@, name@, top@, flat@, path@, default) == Ok::<
                u64,
                DecodeErrorV,
            >(n),
            Err(e) => spec_uint_field(sec@, name@, top@, flat@, path@, default) == Err::<
                u64,
                DecodeErrorV,
            >(e@),
        },
{
    match field_value(sec, name, top, flat) {
        None => Ok(default),
        Some(HostValue::UInt(n)) => if *n <= u32::MAX as u64 {
            Ok(*n)
        } else {
            Err(DecodeError { path: path.to_owned(), kind: DecodeErrorKind::IntegerOutOfRange })
        },
        Some(_) => Err(
            DecodeError { path: path.to_owned(), kind: DecodeErrorKind::ExpectedInteger },
        ),
    }
}

/// An optional string field: absent stays absent.
pub open spec fn spec_opt_string_field(
    sec: Seq<(String, HostValue)>,
    name: Seq<char>,
    top: Seq<(String, HostValue)>,
    flat: Seq<char>,
    path: Seq<char>,
) -> Result<Option<Seq<char>>, DecodeErrorV> {
    match spec_field_value(sec, name, top, flat) {
        None => Ok(None),
        Some(HostValue::Str(s)) => Ok(Some(s@)),
        Some(_) => Err(DecodeErrorV { path, kind: DecodeErrorKind::ExpectedString }),
    }
}

fn opt_string_field(
    sec: &Vec<(String, HostValue)>,
    name: &str,
    top: &Vec<(String, HostValue)>,
    flat: &str,
    path: &str,
) -> (r: Result<Option<String>, DecodeError>)
    ensures
        match r {
            Ok(o) => spec_opt_string_field(sec@, name@, top@, flat@, path@) == Ok::<
                Option<Seq<char>>,
                DecodeErrorV,
            >(
                match o {
                    Some(s) => Some(s@),
                    None => None,
                },
            ),
            Err(e) => spec_opt_string_field(sec@, name@, top@, flat@, path@) == Err::<
                Option<Seq<char>>,
                DecodeErrorV,
            >(e@),
        },
{
    match field_value(sec, name, top, flat) {
        None => Ok(None),
        Some(HostValue::Str(s)) => Ok(Some(s.clone())),
        Some(_) => Err(
            DecodeError { path: path.to_owned(), kind: DecodeErrorKind::ExpectedString },
        ),
    }
}

/// An optional host-callable field: absent stays absent.
pub open spec fn spec_callable_field(
    sec: Seq<(String, HostValue)>,
    name: Seq<char>,
    top: Seq<(String, HostValue)>,
    flat: Seq<char>,
    path: Seq<char>,
) -> Result<Option<u64>, DecodeErrorV> {
    match spec_field_value(sec, name, top, flat) {
        None => Ok(None),
        Some(HostValue::Callable(h)) => Ok(Some(h)),
        Some(_) => Err(DecodeErrorV { path, kind: DecodeErrorKind::ExpectedCallable }),
    }
}

fn callable_field(
    sec: &Vec<(String, HostValue)>,
    name: &str,
    top: &Vec<(String, HostValue)>,
    flat: &str,
    path: &str,
) -> (r: Result<Option<u64>, DecodeError>)
    ensures
        match r {
            Ok(o) => spec_callable_field(sec@, name@, top@, flat@, path@) == Ok::<
                Option<u64>,
                DecodeErrorV,
            >(o),
            Err(e) => spec_callable_field(sec@, name@, top@, flat@, path@) == Err::<
                Option<u64>,
                DecodeErrorV,
            >(e@),
        },
{
    match field_value(sec, name, top, flat) {
        None => Ok(None),
        Some(HostValue::Callable(h)) => Ok(Some(*h)),
        Some(_) => Err(
            DecodeError { path: path.to_owned(), kind: DecodeErrorKind::ExpectedCallable },
        ),
    }
}

/// The list style a wire string decodes to, up to ASCII case.
pub open spec fn spec_list_style_of(s: Seq<char>) -> Option<ListStyleType> {
    if eq_ignore_case(s, "dash"@) {
        Some(ListStyleType::Dash)
    } else if eq_ignore_case(s, "plus"@) {
        Some(ListStyleType::Plus)
    } else if eq_ignore_case(s, "star"@) {
        Some(ListStyleType::Star)
    } else {
        None
    }
}

/// Decode a wire string to a list style, up to ASCII case.
pub fn list_style_of(s: &str) -> (r: Option<ListStyleType>)
    ensures
        r == spec_list_style_of(s@),
{
    if crate::host::str_eq_ignore_case(s, "dash") {
        Some(ListStyleType::Dash)
    } else if crate::host::str_eq_ignore_case(s, "plus") {
        Some(ListStyleType::Plus)
    } else if crate::host::str_eq_ignore_case(s, "star") {
        Some(ListStyleType::Star)
    } else {
        None
    }
}

/// The list-style field: absent takes the default `dash`.
pub open spec fn spec_list_style_field(
    sec: Seq<(String, HostValue)>,
    name: Seq<char>,
    top: Seq<(String, HostValue)>,
    flat: Seq<char>,
    path: Seq<char>,
) -> Result<ListStyleType, DecodeErrorV> {
    match spec_field_value(sec, name, top, flat) {
        None => Ok(ListStyleType::Dash),
        Some(HostValue::Str(s)) => match spec_list_style_of(s@) {
            Some(ls) => Ok(ls),
            None => Err(DecodeErrorV { path, kind: DecodeErrorKind::ExpectedEnum }),
        },
        Some(_) => Err(DecodeErrorV { path, kind: DecodeErrorKind::ExpectedEnum }),
    }
}

fn list_style_field(
    sec: &Vec<(String, HostValue)>,
    name: &str,
    top: &Vec<(String, HostValue)>,
    flat: &str,
    path: &str,
) -> (r: Result<ListStyleType, DecodeError>)
    ensures
        match r {
            Ok(ls) => spec_list_style_field(sec@, name@, top@, flat@, path@) == Ok::<
                ListStyleType,
                DecodeErrorV,
            >(ls),
            Err(e) => spec_list_style_field(sec@, name@, top@, flat@, path@) == Err::<
                ListStyleType,
                DecodeErrorV,
            >(e@),
        },
{
    match field_value(sec, name, top, flat) {
        None => Ok(ListStyleType::Dash),
        Some(HostValue::Str(s)) => match list_style_of(s.as_str()) {
            Some(ls) => Ok(ls),
            None => Err(
                DecodeError { path: path.to_owned(), kind: DecodeErrorKind::ExpectedEnum },
            ),
        },
        Some(_) => Err(DecodeError { path: path.to_owned(), kind: DecodeErrorKind::ExpectedEnum }),
    }
}

/// The wikilink title side a wire string decodes to, up to ASCII case.
pub open spec fn spec_wikilinks_title_of(s: Seq<char>) -> Option<WikiLinksTitle> {
    if eq_ignore_case(s, "before"@) {
        Some(WikiLinksTitle::Before)
    } else if eq_ignore_case(s, "after"@) {
        Some(WikiLinksTitle::After)
    } else {
        None
    }
}

/// Decode a wire string to a wikilink title side, up to ASCII case.
pub fn wikilinks_title_of(s: &str) -> (r: Option<WikiLinksTitle>)
    ensures
        r == spec_wikilinks_title_of(s@),
{
    if crate::host::str_eq_ignore_case(s, "before") {
        Some(WikiLinksTitle::Before)
    } else if crate::host::str_eq_ignore_case(s, "after") {
        Some(WikiLinksTitle::After)
    } else {
        None
    }
}

/// The nested-form-only `wikilinks_title` field: absent selects no side.
pub open spec fn spec_wikilinks_title_field(
    sec: Seq<(String, HostValue)>,
    path: Seq<char>,
) -> Result<Option<WikiLinksTitle>, DecodeErrorV> {
    match lookup(sec, "wikilinks_title"@) {
        None => Ok(None),
        Some(HostValue::Absent) => Ok(None),
        Some(HostValue::Str(s)) => match spec_wikilinks_title_of(s@) {
            Some(w) => Ok(Some(w)),
            None => Err(DecodeErrorV { path, kind: DecodeErrorKind::ExpectedEnum }),
        },
        Some(_) => Err(DecodeErrorV { path, kind: DecodeErrorKind::ExpectedEnum }),
    }
}

fn wikilinks_title_field(sec: &Vec<(String, HostValue)>, path: &str) -> (r: Result<
    Option<WikiLinksTitle>,
    DecodeError,
>)
    ensures
        match r {
            Ok(o) => spec_wikilinks_title_field(sec@, path@) == Ok::<
                Option<WikiLinksTitle>,
                DecodeErrorV,
            >(o),
            Err(e) => spec_wikilinks_title_field(sec@, path@) == Err::<
                Option<WikiLinksTitle>,
                DecodeErrorV,
            >(e@),
        },
{
    match get(sec, "wikilinks_title") {
        None => Ok(None),
        Some(HostValue::Absent) => Ok(None),
        Some(HostValue::Str(s)) => match wikilinks_title_of(s.as_str()) {
            Some(w) => Ok(Some(w)),
            None => Err(
                DecodeError { path: path.to_owned(), kind: DecodeErrorKind::ExpectedEnum },
            ),
        },
        Some(_) => Err(DecodeError { path: path.to_owned(), kind: DecodeErrorKind::ExpectedEnum }),
    }
}

/// The field names the extension section recognizes.
pub open spec fn is_extension_key(k: Seq<char>) -> bool {
    ||| k == "autolink"@
    ||| k == "description_lists"@
    ||| k == "footnotes"@
    ||| k == "front_matter_delimiter"@
    ||| k == "header_ids"@
    ||| k == "strikethrough"@
    ||| k == "superscript"@
    ||| k == "table"@
    ||| k == "tagfilter"@
    ||| k == "tasklist"@
    ||| k == "multiline_block_quotes"@
    ||| k == "alerts"@
    ||| k == "math_dollars"@
    ||| k == "math_code"@
    ||| k == "wikilinks_title"@
    ||| k == "wikilinks_title_after_pipe"@
    ||| k == "wikilinks_title_before_pipe"@
    ||| k == "underline"@
    ||| k == "subscript"@
    ||| k == "spoiler"@
    ||| k == "greentext"@
    ||| k == "cjk_friendly_emphasis"@
    ||| k == "image_url_rewriter"@
    ||| k == "link_url_rewriter"@
}

fn is_extension_key_x(k: &str) -> (r: bool)
    ensures
        r == is_extension_key(k@),
{
    str_eq(k, "autolink") || str_eq(k, "description_lists") || str_eq(k, "footnotes") || str_eq(
        k,
        "front_matter_delimiter",
    ) || str_eq(k, "header_ids") || str_eq(k, "strikethrough") || str_eq(k, "superscript")
        || str_eq(k, "table") || str_eq(k, "tagfilter") || str_eq(k, "tasklist") || str_eq(
        k,
        "multiline_block_quotes",
    ) || str_eq(k, "alerts") || str_eq(k, "math_dollars") || str_eq(k, "math_code") || str_eq(
        k,
        "wikilinks_title",
    ) || str_eq(k, "wikilinks_title_after_pipe") || str_eq(k, "wikilinks_title_before_pipe")
        || str_eq(k, "underline") || str_eq(k, "subscript") || str_eq(k, "spoiler") || str_eq(
        k,
        "greentext",
    ) || str_eq(k, "cjk_friendly_emphasis") || str_eq(k, "image_url_rewriter") || str_eq(
        k,
        "link_url_rewriter",
    )
}

/// The field names the parse section recognizes.
pub open spec fn is_parse_key(k: Seq<char>) -> bool {
    ||| k == "default_info_string"@
    ||| k == "smart"@
    ||| k == "relaxed_tasklist_matching"@
    ||| k == "relaxed_autolinks"@
    ||| k == "broken_link_callback"@
}

fn is_parse_key_x(k: &str) -> (r: bool)
    ensures
        r == is_parse_key(k@),
{
    str_eq(k, "default_info_string") || str_eq(k, "smart") || str_eq(
        k,
        "relaxed_tasklist_matching",
    ) || str_eq(k, "relaxed_autolinks") || str_eq(k, "broken_link_callback")
}

/// The field names the render section recognizes.
pub open spec fn is_render_key(k: Seq<char>) -> bool {
    ||| k == "escape"@
    ||| k == "github_pre_lang"@
    ||| k == "hardbreaks"@
    ||| k == "unsafe"@
    ||| k == "width"@
    ||| k == "full_info_string"@
    ||| k == "list_style"@
    ||| k == "sourcepos"@
    ||| k == "escaped_char_spans"@
    ||| k == "ignore_setext"@
    ||| k == "ignore_empty_links"@
    ||| k == "gfm_quirks"@
    ||| k == "prefer_fenced"@
    ||| k == "figure_with_caption"@
    ||| k == "tasklist_classes"@
    ||| k == "ol_width"@
    ||| k == "experimental_minimize_commonmark"@
}

fn is_render_key_x(k: &str) -> (r: bool)
    ensures
        r == is_render_key(k@),
{
    str_eq(k, "escape") || str_eq(k, "github_pre_lang") || str_eq(k, "hardbreaks") || str_eq(
        k,
        "unsafe",
    ) || str_eq(k, "width") || str_eq(k, "full_info_string") || str_eq(k, "list_style") || str_eq(
        k,
        "sourcepos",
    ) || str_eq(k, "escaped_char_spans") || str_eq(k, "ignore_setext") || str_eq(
        k,
        "ignore_empty_links",
    ) || str_eq(k, "gfm_quirks") || str_eq(k, "prefer_fenced") || str_eq(k, "figure_with_caption")
        || str_eq(k, "tasklist_classes") || str_eq(k, "ol_width") || str_eq(
        k,
        "experimental_minimize_commonmark",
    )
}

/// The keys the top-level object recognizes: the three section names and
/// every flat, section-prefixed field name.
pub open spec fn is_top_key(k: Seq<char>) -> bool {
    ||| k == "extension"@
    ||| k == "parse"@
    ||| k == "render"@
    ||| k == "extension_autolink"@
    ||| k == "extension_description_lists"@
    ||| k == "extension_footnotes"@
    ||| k == "extension_front_matter_delimiter"@
    ||| k == "extension_header_ids"@
    ||| k == "extension_strikethrough"@
    ||| k == "extension_superscript"@
    ||| k == "extension_table"@
    ||| k == "extension_tagfilter"@
    ||| k == "extension_tasklist"@
    ||| k == "extension_multiline_block_quotes"@
    ||| k == "extension_alerts"@
    ||| k == "extension_math_dollars"@
    ||| k == "extension_math_code"@
    ||| k == "extension_wikilinks_title_after_pipe"@
    ||| k == "extension_wikilinks_title_before_pipe"@
    ||| k == "extension_underline"@
    ||| k == "extension_subscript"@
    ||| k == "extension_spoiler"@
    ||| k == "extension_greentext"@
    ||| k == "extension_cjk_friendly_emphasis"@
    ||| k == "extension_image_url_rewriter"@
    ||| k == "extension_link_url_rewriter"@
    ||| k == "parse_default_info_string"@
    ||| k == "parse_smart"@
    ||| k == "parse_relaxed_tasklist_matching"@
    ||| k == "parse_relaxed_autolinks"@
    ||| k == "parse_broken_link_callback"@
    ||| k == "render_escape"@
    ||| k == "render_github_pre_lang"@
    ||| k == "render_hardbreaks"@
    ||| k == "render_unsafe"@
    ||| k == "render_width"@
    ||| k == "render_full_info_string"@
    ||| k == "render_list_style"@
    ||| k == "render_sourcepos"@
    ||| k == "render_escaped_char_spans"@
    ||| k == "render_ignore_setext"@
    ||| k == "render_ignore_empty_links"@
    ||| k == "render_gfm_quirks"@
    ||| k == "render_prefer_fenced"@
    ||| k == "render_figure_with_caption"@
    ||| k == "render_tasklist_classes"@
    ||| k == "render_ol_width"@
    ||| k == "render_experimental_minimize_commonmark"@
}

fn is_top_key_x(k: &str) -> (r: bool)
    ensures
        r == is_top_key(k@),
{
    str_eq(k, "extension") || str_eq(k, "parse") || str_eq(k, "render") || str_eq(
        k,
        "extension_autolink",
    ) || str_eq(k, "extension_description_lists") || str_eq(k, "extension_footnotes") || str_eq(
        k,
        "extension_front_matter_delimiter",
    ) || str_eq(k, "extension_header_ids") || str_eq(k, "extension_strikethrough") || str_eq(
        k,
        "extension_superscript",
    ) || str_eq(k, "extension_table") || str_eq(k, "extension_tagfilter") || str_eq(
        k,
        "extension_tasklist",
    ) || str_eq(k, "extension_multiline_block_quotes") || str_eq(k, "extension_alerts") || str_eq(
        k,
        "extension_math_dollars",
    ) || str_eq(k, "extension_math_code") || str_eq(k, "extension_wikilinks_title_after_pipe")
        || str_eq(k, "extension_wikilinks_title_before_pipe") || str_eq(k, "extension_underline")
        || str_eq(k, "extension_subscript") || str_eq(k, "extension_spoiler") || str_eq(
        k,
        "extension_greentext",
    ) || str_eq(k, "extension_cjk_friendly_emphasis") || str_eq(k, "extension_image_url_rewriter")
        || str_eq(k, "extension_link_url_rewriter") || str_eq(k, "parse_default_info_string")
        || str_eq(k, "parse_smart") || str_eq(k, "parse_relaxed_tasklist_matching") || str_eq(
        k,
        "parse_relaxed_autolinks",
    ) || str_eq(k, "parse_broken_link_callback") || str_eq(k, "render_escape") || str_eq(
        k,
        "render_github_pre_lang",
    ) || str_eq(k, "render_hardbreaks") || str_eq(k, "render_unsafe") || str_eq(k, "render_width")
        || str_eq(k, "render_full_info_string") || str_eq(k, "render_list_style") || str_eq(
        k,
        "render_sourcepos",
    ) || str_eq(k, "render_escaped_char_spans") || str_eq(k, "render_ignore_setext") || str_eq(
        k,
        "render_ignore_empty_links",
    ) || str_eq(k, "render_gfm_quirks") || str_eq(k, "render_prefer_fenced") || str_eq(
        k,
        "render_figure_with_caption",
    ) || str_eq(k, "render_tasklist_classes") || str_eq(k, "render_ol_width") || str_eq(
        k,
        "render_experimental_minimize_commonmark",
    )
}

/// Which recognized-key set an object is checked against.
#[derive(Clone, Copy, PartialEq, Eq, Structural, Debug)]
pub enum KeySpace {
    Extension,
    Parse,
    Render,
    Top,
}

/// Whether `ks` recognizes the key `k`.
pub open spec fn key_ok(ks: KeySpace, k: Seq<char>) -> bool {
    match ks {
        KeySpace::Extension => is_extension_key(k),
        KeySpace::Parse => is_parse_key(k),
        KeySpace::Render => is_render_key(k),
        KeySpace::Top => is_top_key(k),
    }
}

/// The first key among `fields` that `ks` does not recognize, if any.
pub open spec fn first_unknown(fields: Seq<(String, HostValue)>, ks: KeySpace) -> Option<Seq<char>>
    decreases fields.len(),
{
    if fields.len() == 0 {
        None
    } else if !key_ok(ks, fields[0].0@) {
        Some(fields[0].0@)
    } else {
        first_unknown(fields.drop_first(), ks)
    }
}

fn check_keys_extension(fs: &Vec<(String, HostValue)>) -> (r: Result<(), DecodeError>)
    ensures
        match r {
            Ok(_) => first_unknown(fs@, KeySpace::Extension) is None,
            Err(e) => {
                &&& first_unknown(fs@, KeySpace::Extension) matches Some(k)
                    && e@.path == "extension."@ + k
                &&& e@.kind == DecodeErrorKind::UnknownField
            },
        },
{
    let mut i: usize = 0;
    assert(fs@.skip(0) =~= fs@);
    while i < fs.len()
        invariant
            i <= fs@.len(),
            first_unknown(fs@, KeySpace::Extension) == first_unknown(fs@.skip(i as int), KeySpace::Extension),
        decreases fs@.len() - i,
    {
        assert(fs@.skip(i as int)[0] == fs@[i as int]);
        if !is_extension_key_x(fs[i].0.as_str()) {
            let mut path: String = "extension.".to_owned();
            path.append(fs[i].0.as_str());
            return Err(DecodeError { path, kind: DecodeErrorKind::UnknownField });
        }
        assert(fs@.skip(i as int).drop_first() =~= fs@.skip(i as int + 1));
        i = i + 1;
    }
    Ok(())
}

fn check_keys_parse(fs: &Vec<(String, HostValue)>) -> (r: Result<(), DecodeError>)
    ensures
        match r {
            Ok(_) => first_unknown(fs@, KeySpace::Parse) is None,
            Err(e) => {
                &&& first_unknown(fs@, KeySpace::Parse) matches Some(k) && e@.path
                    == "parse."@ + k
                &&& e@.kind == DecodeErrorKind::UnknownField
            },
        },
{
    let mut i: usize = 0;
    assert(fs@.skip(0) =~= fs@);
    while i < fs.len()
        invariant
            i <= fs@.len(),
            first_unknown(fs@, KeySpace::Parse) == first_unknown(fs@.skip(i as int), KeySpace::Parse),
        decreases fs@.len() - i,
    {
        assert(fs@.skip(i as int)[0] == fs@[i as int]);
        if !is_parse_key_x(fs[i].0.as_str()) {
            let mut path: String = "parse.".to_owned();
            path.append(fs[i].0.as_str());
            return Err(DecodeError { path, kind: DecodeErrorKind::UnknownField });
        }
        assert(fs@.skip(i as int).drop_first() =~= fs@.skip(i as int + 1));
        i = i + 1;
    }
    Ok(())
}

fn check_keys_render(fs: &Vec<(String, HostValue)>) -> (r: Result<(), DecodeError>)
    ensures
        match r {
            Ok(_) => first_unknown(fs@, KeySpace::Render) is None,
            Err(e) => {
                &&& first_unknown(fs@, KeySpace::Render) matches Some(k) && e@.path
                    == "render."@ + k
                &&& e@.kind == DecodeErrorKind::UnknownField
            },
        },
{
    let mut i: usize = 0;
    assert(fs@.skip(0) =~= fs@);
    while i < fs.len()
        invariant
            i <= fs@.len(),
            first_unknown(fs@, KeySpace::Render) == first_unknown(fs@.skip(i as int), KeySpace::Render),
        decreases fs@.len() - i,
    {
        assert(fs@.skip(i as int)[0] == fs@[i as int]);
        if !is_render_key_x(fs[i].0.as_str()) {
            let mut path: String = "render.".to_owned();
            path.append(fs[i].0.as_str());
            return Err(DecodeError { path, kind: DecodeErrorKind::UnknownField });
        }
        assert(fs@.skip(i as int).drop_first() =~= fs@.skip(i as int + 1));
        i = i + 1;
    }
    Ok(())
}

fn check_keys_top(fs: &Vec<(String, HostValue)>) -> (r: Result<(), DecodeError>)
    ensures
        match r {
            Ok(_) => first_unknown(fs@, KeySpace::Top) is None,
            Err(e) => {
                &&& first_unknown(fs@, KeySpace::Top) matches Some(k) && e@.path
                    == k
                &&& e@.kind == DecodeErrorKind::UnknownField
            },
        },
{
    let mut i: usize = 0;
    assert(fs@.skip(0) =~= fs@);
    while i < fs.len()
        invariant
            i <= fs@.len(),
            first_unknown(fs@, KeySpace::Top) == first_unknown(fs@.skip(i as int), KeySpace::Top),
        decreases fs@.len() - i,
    {
        assert(fs@.skip(i as int)[0] == fs@[i as int]);
        if !is_top_key_x(fs[i].0.as_str()) {
            return Err(
                DecodeError { path: fs[i].0.clone(), kind: DecodeErrorKind::UnknownField },
            );
        }
        assert(fs@.skip(i as int).drop_first() =~= fs@.skip(i as int + 1));
        i = i + 1;
    }
    Ok(())
}

/// A section of the top object: absent counts as empty, anything but an
/// object is rejected under the section's name.
pub open spec fn spec_section(top: Seq<(String, HostValue)>, name: Seq<char>) -> Result<
    Seq<(String, HostValue)>,
    DecodeErrorV,
> {
    match lookup(top, name) {
        None => Ok(Seq::<(String, HostValue)>::empty()),
        Some(HostValue::Absent) => Ok(Seq::<(String, HostValue)>::empty()),
        Some(HostValue::Obj(fs)) => Ok(fs@),
        Some(_) => Err(DecodeErrorV { path: name, kind: DecodeErrorKind::ExpectedObject }),
    }
}

fn section<'a>(top: &'a Vec<(String, HostValue)>, name: &str) -> (r: Result<
    Option<&'a Vec<(String, HostValue)>>,
    DecodeError,
>)
    ensures
        match r {
            Ok(Some(fs)) => spec_section(top@, name@) == Ok::<_, DecodeErrorV>(fs@),
            Ok(None) => spec_section(top@, name@) == Ok::<_, DecodeErrorV>(
                Seq::<(String, HostValue)>::empty(),
            ),
            Err(e) => spec_section(top@, name@) == Err::<Seq<(String, HostValue)>, _>(e@),
        },
{
    match get(top, name) {
        None => Ok(None),
        Some(HostValue::Absent) => Ok(None),
        Some(HostValue::Obj(fs)) => Ok(Some(fs)),
        Some(_) => Err(
            DecodeError { path: name.to_owned(), kind: DecodeErrorKind::ExpectedObject },
        ),
    }
}

/// Which wikilink title sides end up selected.
pub ghost struct WikiSidesV {
    pub after: bool,
    pub before: bool,
}

/// Which wikilink title sides end up selected.
pub struct WikiSides {
    pub after: bool,
    pub before: bool,
}

impl View for WikiSides {
    type V = WikiSidesV;

    open spec fn view(&self) -> WikiSidesV {
        WikiSidesV { after: self.after, before: self.before }
    }
}

/// The wikilink pair: the nested enumeration wins when present; otherwise
/// the two flags stand, and both at once are rejected.
#[verifier::opaque]
pub open spec fn spec_wikilink_pair(wt: Option<WikiLinksTitle>, after: bool, before: bool) -> Result<
    WikiSidesV,
    DecodeErrorV,
> {
    match wt {
        Some(WikiLinksTitle::After) => Ok(WikiSidesV { after: true, before: false }),
        Some(WikiLinksTitle::Before) => Ok(WikiSidesV { after: false, before: true }),
        None => if after && before {
            Err(
                DecodeErrorV {
                    path: "extension.wikilinks_title"@,
                    kind: DecodeErrorKind::ConflictingWikilinkSides,
                },
            )
        } else {
            Ok(WikiSidesV { after, before })
        },
    }
}

fn wikilink_pair(wt: Option<WikiLinksTitle>, after: bool, before: bool) -> (r: Result<
    WikiSides,
    DecodeError,
>)
    ensures
        match r {
            Ok(p) => spec_wikilink_pair(wt, after, before) == Ok::<WikiSidesV, DecodeErrorV>(p@),
            Err(e) => spec_wikilink_pair(wt, after, before) == Err::<WikiSidesV, DecodeErrorV>(
                e@,
            ),
        },
{
    proof {
        reveal(spec_wikilink_pair);
    }
    match wt {
        Some(WikiLinksTitle::After) => Ok(WikiSides { after: true, before: false }),
        Some(WikiLinksTitle::Before) => Ok(WikiSides { after: false, before: true }),
        None => if after && before {
            Err(
                DecodeError {
                    path: "extension.wikilinks_title".to_owned(),
                    kind: DecodeErrorKind::ConflictingWikilinkSides,
                },
            )
        } else {
            Ok(WikiSides { after, before })
        },
    }
}

/// The extension-section fields, one named decoder each.
#[verifier::opaque]
pub open spec fn spec_ext_autolink(fs: Seq<(String, HostValue)>, top: Seq<(String, HostValue)>) -> Result<bool, DecodeErrorV> {
    spec_bool_field(fs, "autolink"@, top, "extension_autolink"@, "extension.autolink"@, true)
}

fn ext_autolink(fs: &Vec<(String, HostValue)>, top: &Vec<(String, HostValue)>) -> (r: Result<bool, DecodeError>)
    ensures
        match r {
            Ok(v) => spec_ext_autolink(fs@, top@) == Ok::<bool, DecodeErrorV>(v),
            Err(e) => spec_ext_autolink(fs@, top@) == Err::<bool, DecodeErrorV>(e@),
        },
{
    proof {
        reveal(spec_ext_autolink);
    }
    bool_field(fs, "autolink", top, "extension_autolink", "extension.autolink", true)
}

#[verifier::opaque]
pub open spec fn spec_ext_description_lists(fs: Seq<(String, HostValue)>, top: Seq<(String, HostValue)>) -> Result<bool, DecodeErrorV> {
    spec_bool_field(fs, "description_lists"@, top, "extension_description_lists"@, "extension.description_lists"@, true)
}

fn ext_description_lists(fs: &Vec<(String, HostValue)>, top: &Vec<(String, HostValue)>) -> (r: Result<bool, DecodeError>)
    ensures
        match r {
            Ok(v) => spec_ext_description_lists(fs@, top@) == Ok::<bool, DecodeErrorV>(v),
            Err(e) => spec_ext_description_lists(fs@, top@) == Err::<bool, DecodeErrorV>(e@),
        },
{
    proof {
        reveal(spec_ext_description_lists);
    }
    bool_field(fs, "description_lists", top, "extension_description_lists", "extension.description_lists", true)
}

#[verifier::opaque]
pub open spec fn spec_ext_footnotes(fs: Seq<(String, HostValue)>, top: Seq<(String, HostValue)>) -> Result<bool, DecodeErrorV> {
    spec_bool_field(fs, "footnotes"@, top, "extension_footnotes"@, "extension.footnotes"@, true)
}

fn ext_footnotes(fs: &Vec<(String, HostValue)>, top: &Vec<(String, HostValue)>) -> (r: Result<bool, DecodeError>)
    ensures
        match r {
            Ok(v) => spec_ext_footnotes(fs@, top@) == Ok::<bool, DecodeErrorV>(v),
            Err(e) => spec_ext_footnotes(fs@, top@) == Err::<bool, DecodeErrorV>(e@),
        },
{
    proof {
        reveal(spec_ext_footnotes);
    }
    bool_field(fs, "footnotes", top, "extension_footnotes", "extension.footnotes", true)
}

#[verifier::opaque]
pub open spec fn spec_ext_front_matter_delimiter(fs: Seq<(String, HostValue)>, top: Seq<(String, HostValue)>) -> Result<Option<Seq<char>>, DecodeErrorV> {
    spec_opt_string_field(fs, "front_matter_delimiter"@, top, "extension_front_matter_delimiter"@, "extension.front_matter_delimiter"@)
}

fn ext_front_matter_delimiter(fs: &Vec<(String, HostValue)>, top: &Vec<(String, HostValue)>) -> (r: Result<Option<String>, DecodeError>)
    ensures
        match r {
            Ok(v) => spec_ext_front_matter_delimiter(fs@, top@) == Ok::<Option<Seq<char>>, DecodeErrorV>(match v {
                Some(s) => Some(s@),
                None => None,
            }),
            Err(e) => spec_ext_front_matter_delimiter(fs@, top@) == Err::<Option<Seq<char>>, DecodeErrorV>(e@),
        },
{
    proof {
        reveal(spec_ext_front_matter_delimiter);
    }
    opt_string_field(fs, "front_matter_delimiter", top, "extension_front_matter_delimiter", "extension.front_matter_delimiter")
}

#[verifier::opaque]
pub open spec fn spec_ext_header_ids(fs: Seq<(String, HostValue)>, top: Seq<(String, HostValue)>) -> Result<Option<Seq<char>>, DecodeErrorV> {
    spec_opt_string_field(fs, "header_ids"@, top, "extension_header_ids"@, "extension.header_ids"@)
}

fn ext_header_ids(fs: &Vec<(String, HostValue)>, top: &Vec<(String, HostValue)>) -> (r: Result<Option<String>, DecodeError>)
    ensures
        match r {
            Ok(v) => spec_ext_header_ids(fs@, top@) == Ok::<Option<Seq<char>>, DecodeErrorV>(match v {
                Some(s) => Some(s@),
                None => None,
            }),
            Err(e) => spec_ext_header_ids(fs@, top@) == Err::<Option<Seq<char>>, DecodeErrorV>(e@),
        },
{
    proof {
        reveal(spec_ext_header_ids);
    }
    opt_string_field(fs, "header_ids", top, "extension_header_ids", "extension.header_ids")
}

#[verifier::opaque]
pub open spec fn spec_ext_strikethrough(fs: Seq<(String, HostValue)>, top: Seq<(String, HostValue)>) -> Result<bool, DecodeErrorV> {
    spec_bool_field(fs, "strikethrough"@, top, "extension_strikethrough"@, "extension.strikethrough"@, true)
}

fn ext_strikethrough(fs: &Vec<(String, HostValue)>, top: &Vec<(String, HostValue)>) -> (r: Result<bool, DecodeError>)
    ensures
        match r {
            Ok(v) => spec_ext_strikethrough(fs@, top@) == Ok::<bool, DecodeErrorV>(v),
            Err(e) => spec_ext_strikethrough(fs@, top@) == Err::<bool, DecodeErrorV>(e@),
        },
{
    proof {
        reveal(spec_ext_strikethrough);
    }
    bool_field(fs, "strikethrough", top, "extension_strikethrough", "extension.strikethrough", true)
}

#[verifier::opaque]
pub open spec fn spec_ext_superscript(fs: Seq<(String, HostValue)>, top: Seq<(String, HostValue)>) -> Result<bool, DecodeErrorV> {
    spec_bool_field(fs, "superscript"@, top, "extension_superscript"@, "extension.superscript"@, true)
}

fn ext_superscript(fs: &Vec<(String, HostValue)>, top: &Vec<(String, HostValue)>) -> (r: Result<bool, DecodeError>)
    ensures
        match r {
            Ok(v) => spec_ext_superscript(fs@, top@) == Ok::<bool, DecodeErrorV>(v),
            Err(e) => spec_ext_superscript(fs@, top@) == Err::<bool, DecodeErrorV>(e@),
        },
{
    proof {
        reveal(spec_ext_superscript);
    }
    bool_field(fs, "superscript", top, "extension_superscript", "extension.superscript", true)
}

#[verifier::opaque]
pub open spec fn spec_ext_table(fs: Seq<(String, HostValue)>, top: Seq<(String, HostValue)>) -> Result<bool, DecodeErrorV> {
    spec_bool_field(fs, "table"@, top, "extension_table"@, "extension.table"@, true)
}

fn ext_table(fs: &Vec<(String, HostValue)>, top: &Vec<(String, HostValue)>) -> (r: Result<bool, DecodeError>)
    ensures
        match r {
            Ok(v) => spec_ext_table(fs@, top@) == Ok::<bool, DecodeErrorV>(v),
            Err(e) => spec_ext_table(fs@, top@) == Err::<bool, DecodeErrorV>(e@),
        },
{
    proof {
        reveal(spec_ext_table);
    }
    bool_field(fs, "table", top, "extension_table", "extension.table", true)
}

#[verifier::opaque]
pub open spec fn spec_ext_tagfilter(fs: Seq<(String, HostValue)>, top: Seq<(String, HostValue)>) -> Result<bool, DecodeErrorV> {
    spec_bool_field(fs, "tagfilter"@, top, "extension_tagfilter"@, "extension.tagfilter"@, true)
}

fn ext_tagfilter(fs: &Vec<(String, HostValue)>, top: &Vec<(String, HostValue)>) -> (r: Result<bool, DecodeError>)
    ensures
        match r {
            Ok(v) => spec_ext_tagfilter(fs@, top@) == Ok::<bool, DecodeErrorV>(v),
            Err(e) => spec_ext_tagfilter(fs@, top@) == Err::<bool, DecodeErrorV>(e@),
        },
{
    proof {
        reveal(spec_ext_tagfilter);
    }
    bool_field(fs, "tagfilter", top, "extension_tagfilter", "extension.tagfilter", true)
}

#[verifier::opaque]
pub open spec fn spec_ext_tasklist(fs: Seq<(String, HostValue)>, top: Seq<(String, HostValue)>) -> Result<bool, DecodeErrorV> {
    spec_bool_field(fs, "tasklist"@, top, "extension_tasklist"@, "extension.tasklist"@, true)
}

fn ext_tasklist(fs: &Vec<(String, HostValue)>, top: &Vec<(String, HostValue)>) -> (r: Result<bool, DecodeError>)
    ensures
        match r {
            Ok(v) => spec_ext_tasklist(fs@, top@) == Ok::<bool, DecodeErrorV>(v),
            Err(e) => spec_ext_tasklist(fs@, top@) == Err::<bool, DecodeErrorV>(e@),
        },
{
    proof {
        reveal(spec_ext_tasklist);
    }
    bool_field(fs, "tasklist", top, "extension_tasklist", "extension.tasklist", true)
}

#[verifier::opaque]
pub open spec fn spec_ext_multiline_block_quotes(fs: Seq<(String, HostValue)>, top: Seq<(String, HostValue)>) -> Result<bool, DecodeErrorV> {
    spec_bool_field(fs, "multiline_block_quotes"@, top, "extension_multiline_block_quotes"@, "extension.multiline_block_quotes"@, false)
}

fn ext_multiline_block_quotes(fs: &Vec<(String, HostValue)>, top: &Vec<(String, HostValue)>) -> (r: Result<bool, DecodeError>)
    ensures
        match r {
            Ok(v) => spec_ext_multiline_block_quotes(fs@, top@) == Ok::<bool, DecodeErrorV>(v),
            Err(e) => spec_ext_multiline_block_quotes(fs@, top@) == Err::<bool, DecodeErrorV>(e@),
        },
{
    proof {
        reveal(spec_ext_multiline_block_quotes);
    }
    bool_field(fs, "multiline_block_quotes", top, "extension_multiline_block_quotes", "extension.multiline_block_quotes", false)
}

#[verifier::opaque]
pub open spec fn spec_ext_alerts(fs: Seq<(String, HostValue)>, top: Seq<(String, HostValue)>) -> Result<bool, DecodeErrorV> {
    spec_bool_field(fs, "alerts"@, top, "extension_alerts"@, "extension.alerts"@, false)
}

fn ext_alerts(fs: &Vec<(String, HostValue)>, top: &Vec<(String, HostValue)>) -> (r: Result<bool, DecodeError>)
    ensures
        match r {
            Ok(v) => spec_ext_alerts(fs@, top@) == Ok::<bool, DecodeErrorV>(v),
            Err(e) => spec_ext_alerts(fs@, top@) == Err::<bool, DecodeErrorV>(e@),
        },
{
    proof {
        reveal(spec_ext_alerts);
    }
    bool_field(fs, "alerts", top, "extension_alerts", "extension.alerts", false)
}

#[verifier::opaque]
pub open spec fn spec_ext_math_dollars(fs: Seq<(String, HostValue)>, top: Seq<(String, HostValue)>) -> Result<bool, DecodeErrorV> {
    spec_bool_field(fs, "math_dollars"@, top, "extension_math_dollars"@, "extension.math_dollars"@, false)
}

fn ext_math_dollars(fs: &Vec<(String, HostValue)>, top: &Vec<(String, HostValue)>) -> (r: Result<bool, DecodeError>)
    ensures
        match r {
            Ok(v) => spec_ext_math_dollars(fs@, top@) == Ok::<bool, DecodeErrorV>(v),
            Err(e) => spec_ext_math_dollars(fs@, top@) == Err::<bool, DecodeErrorV>(e@),
        },
{
    proof {
        reveal(spec_ext_math_dollars);
    }
    bool_field(fs, "math_dollars", top, "extension_math_dollars", "extension.math_dollars", false)
}

#[verifier::opaque]
pub open spec fn spec_ext_math_code(fs: Seq<(String, HostValue)>, top: Seq<(String, HostValue)>) -> Result<bool, DecodeErrorV> {
    spec_bool_field(fs, "math_code"@, top, "extension_math_code"@, "extension.math_code"@, false)
}

fn ext_math_code(fs: &Vec<(String, HostValue)>, top: &Vec<(String, HostValue)>) -> (r: Result<bool, DecodeError>)
    ensures
        match r {
            Ok(v) => spec_ext_math_code(fs@, top@) == Ok::<bool, DecodeErrorV>(v),
            Err(e) => spec_ext_math_code(fs@, top@) == Err::<bool, DecodeErrorV>(e@),
        },
{
    proof {
        reveal(spec_ext_math_code);
    }
    bool_field(fs, "math_code", top, "extension_math_code", "extension.math_code", false)
}

#[verifier::opaque]
pub open spec fn spec_ext_wikilinks_title(fs: Seq<(String, HostValue)>, top: Seq<(String, HostValue)>) -> Result<Option<WikiLinksTitle>, DecodeErrorV> {
    spec_wikilinks_title_field(fs, "extension.wikilinks_title"@)
}

fn ext_wikilinks_title(fs: &Vec<(String, HostValue)>, top: &Vec<(String, HostValue)>) -> (r: Result<Option<WikiLinksTitle>, DecodeError>)
    ensures
        match r {
            Ok(v) => spec_ext_wikilinks_title(fs@, top@) == Ok::<Option<WikiLinksTitle>, DecodeErrorV>(v),
            Err(e) => spec_ext_wikilinks_title(fs@, top@) == Err::<Option<WikiLinksTitle>, DecodeErrorV>(e@),
        },
{
    proof {
        reveal(spec_ext_wikilinks_title);
    }
    wikilinks_title_field(fs, "extension.wikilinks_title")
}

#[verifier::opaque]
pub open spec fn spec_ext_wikilinks_title_after_pipe(fs: Seq<(String, HostValue)>, top: Seq<(String, HostValue)>) -> Result<bool, DecodeErrorV> {
    spec_bool_field(fs, "wikilinks_title_after_pipe"@, top, "extension_wikilinks_title_after_pipe"@, "extension.wikilinks_title_after_pipe"@, false)
}

fn ext_wikilinks_title_after_pipe(fs: &Vec<(String, HostValue)>, top: &Vec<(String, HostValue)>) -> (r: Result<bool, DecodeError>)
    ensures
        match r {
            Ok(v) => spec_ext_wikilinks_title_after_pipe(fs@, top@) == Ok::<bool, DecodeErrorV>(v),
            Err(e) => spec_ext_wikilinks_title_after_pipe(fs@, top@) == Err::<bool, DecodeErrorV>(e@),
        },
{
    proof {
        reveal(spec_ext_wikilinks_title_after_pipe);
    }
    bool_field(fs, "wikilinks_title_after_pipe", top, "extension_wikilinks_title_after_pipe", "extension.wikilinks_title_after_pipe", false)
}

#[verifier::opaque]
pub open spec fn spec_ext_wikilinks_title_before_pipe(fs: Seq<(String, HostValue)>, top: Seq<(String, HostValue)>) -> Result<bool, DecodeErrorV> {
    spec_bool_field(fs, "wikilinks_title_before_pipe"@, top, "extension_wikilinks_title_before_pipe"@, "extension.wikilinks_title_before_pipe"@, false)
}

fn ext_wikilinks_title_before_pipe(fs: &Vec<(String, HostValue)>, top: &Vec<(String, HostValue)>) -> (r: Result<bool, DecodeError>)
    ensures
        match r {
            Ok(v) => spec_ext_wikilinks_title_before_pipe(fs@, top@) == Ok::<bool, DecodeErrorV>(v),
            Err(e) => spec_ext_wikilinks_title_before_pipe(fs@, top@) == Err::<bool, DecodeErrorV>(e@),
        },
{
    proof {
        reveal(spec_ext_wikilinks_title_before_pipe);
    }
    bool_field(fs, "wikilinks_title_before_pipe", top, "extension_wikilinks_title_before_pipe", "extension.wikilinks_title_before_pipe", false)
}

#[verifier::opaque]
pub open spec fn spec_ext_underline(fs: Seq<(String, HostValue)>, top: Seq<(String, HostValue)>) -> Result<bool, DecodeErrorV> {
    spec_bool_field(fs, "underline"@, top, "extension_underline"@, "extension.underline"@, false)
}

fn ext_underline(fs: &Vec<(String, HostValue)>, top: &Vec<(String, HostValue)>) -> (r: Result<bool, DecodeError>)
    ensures
        match r {
            Ok(v) => spec_ext_underline(fs@, top@) == Ok::<bool, DecodeErrorV>(v),
            Err(e) => spec_ext_underline(fs@, top@) == Err::<bool, DecodeErrorV>(e@),
        },
{
    proof {
        reveal(spec_ext_underline);
    }
    bool_field(fs, "underline", top, "extension_underline", "extension.underline", false)
}

#[verifier::opaque]
pub open spec fn spec_ext_subscript(fs: Seq<(String, HostValue)>, top: Seq<(String, HostValue)>) -> Result<bool, DecodeErrorV> {
    spec_bool_field(fs, "subscript"@, top, "extension_subscript"@, "extension.subscript"@, false)
}

fn ext_subscript(fs: &Vec<(String, HostValue)>, top: &Vec<(String, HostValue)>) -> (r: Result<bool, DecodeError>)
    ensures
        match r {
            Ok(v) => spec_ext_subscript(fs@, top@) == Ok::<bool, DecodeErrorV>(v),
            Err(e) => spec_ext_subscript(fs@, top@) == Err::<bool, DecodeErrorV>(e@),
        },
{
    proof {
        reveal(spec_ext_subscript);
    }
    bool_field(fs, "subscript", top, "extension_subscript", "extension.subscript", false)
}

#[verifier::opaque]
pub open spec fn spec_ext_spoiler(fs: Seq<(String, HostValue)>, top: Seq<(String, HostValue)>) -> Result<bool, DecodeErrorV> {
    spec_bool_field(fs, "spoiler"@, top, "extension_spoiler"@, "extension.spoiler"@, false)
}

fn ext_spoiler(fs: &Vec<(String, HostValue)>, top: &Vec<(String, HostValue)>) -> (r: Result<bool, DecodeError>)
    ensures
        match r {
            Ok(v) => spec_ext_spoiler(fs@, top@) == Ok::<bool, DecodeErrorV>(v),
            Err(e) => spec_ext_spoiler(fs@, top@) == Err::<bool, DecodeErrorV>(e@),
        },
{
    proof {
        reveal(spec_ext_spoiler);
    }
    bool_field(fs, "spoiler", top, "extension_spoiler", "extension.spoiler", false)
}

#[verifier::opaque]
pub open spec fn spec_ext_greentext(fs: Seq<(String, HostValue)>, top: Seq<(String, HostValue)>) -> Result<bool, DecodeErrorV> {
    spec_bool_field(fs, "greentext"@, top, "extension_greentext"@, "extension.greentext"@, false)
}

fn ext_greentext(fs: &Vec<(String, HostValue)>, top: &Vec<(String, HostValue)>) -> (r: Result<bool, DecodeError>)
    ensures
        match r {
            Ok(v) => spec_ext_greentext(fs@, top@) == Ok::<bool, DecodeErrorV>(v),
            Err(e) => spec_ext_greentext(fs@, top@) == Err::<bool, DecodeErrorV>(e@),
        },
{
    proof {
        reveal(spec_ext_greentext);
    }
    bool_field(fs, "greentext", top, "extension_greentext", "extension.greentext", false)
}

#[verifier::opaque]
pub open spec fn spec_ext_cjk_friendly_emphasis(fs: Seq<(String, HostValue)>, top: Seq<(String, HostValue)>) -> Result<bool, DecodeErrorV> {
    spec_bool_field(fs, "cjk_friendly_emphasis"@, top, "extension_cjk_friendly_emphasis"@, "extension.cjk_friendly_emphasis"@, false)
}

fn ext_cjk_friendly_emphasis(fs: &Vec<(String, HostValue)>, top: &Vec<(String, HostValue)>) -> (r: Result<bool, DecodeError>)
    ensures
        match r {
            Ok(v) => spec_ext_cjk_friendly_emphasis(fs@, top@) == Ok::<bool, DecodeErrorV>(v),
            Err(e) => spec_ext_cjk_friendly_emphasis(fs@, top@) == Err::<bool, DecodeErrorV>(e@),
        },
{
    proof {
        reveal(spec_ext_cjk_friendly_emphasis);
    }
    bool_field(fs, "cjk_friendly_emphasis", top, "extension_cjk_friendly_emphasis", "extension.cjk_friendly_emphasis", false)
}

#[verifier::opaque]
pub open spec fn spec_ext_image_url_rewriter(fs: Seq<(String, HostValue)>, top: Seq<(String, HostValue)>) -> Result<Option<u64>, DecodeErrorV> {
    spec_callable_field(fs, "image_url_rewriter"@, top, "extension_image_url_rewriter"@, "extension.image_url_rewriter"@)
}

fn ext_image_url_rewriter(fs: &Vec<(String, HostValue)>, top: &Vec<(String, HostValue)>) -> (r: Result<Option<u64>, DecodeError>)
    ensures
        match r {
            Ok(v) => spec_ext_image_url_rewriter(fs@, top@) == Ok::<Option<u64>, DecodeErrorV>(v),
            Err(e) => spec_ext_image_url_rewriter(fs@, top@) == Err::<Option<u64>, DecodeErrorV>(e@),
        },
{
    proof {
        reveal(spec_ext_image_url_rewriter);
    }
    callable_field(fs, "image_url_rewriter", top, "extension_image_url_rewriter", "extension.image_url_rewriter")
}

#[verifier::opaque]
pub open spec fn spec_ext_link_url_rewriter(fs: Seq<(String, HostValue)>, top: Seq<(String, HostValue)>) -> Result<Option<u64>, DecodeErrorV> {
    spec_callable_field(fs, "link_url_rewriter"@, top, "extension_link_url_rewriter"@, "extension.link_url_rewriter"@)
}

fn ext_link_url_rewriter(fs: &Vec<(String, HostValue)>, top: &Vec<(String, HostValue)>) -> (r: Result<Option<u64>, DecodeError>)
    ensures
        match r {
            Ok(v) => spec_ext_link_url_rewriter(fs@, top@) == Ok::<Option<u64>, DecodeErrorV>(v),
            Err(e) => spec_ext_link_url_rewriter(fs@, top@) == Err::<Option<u64>, DecodeErrorV>(e@),
        },
{
    proof {
        reveal(spec_ext_link_url_rewriter);
    }
    callable_field(fs, "link_url_rewriter", top, "extension_link_url_rewriter", "extension.link_url_rewriter")
}

#[verifier::opaque]
pub open spec fn spec_par_default_info_string(fs: Seq<(String, HostValue)>, top: Seq<(String, HostValue)>) -> Result<Option<Seq<char>>, DecodeErrorV> {
    spec_opt_string_field(fs, "default_info_string"@, top, "parse_default_info_string"@, "parse.default_info_string"@)
}

fn par_default_info_string(fs: &Vec<(String, HostValue)>, top: &Vec<(String, HostValue)>) -> (r: Result<Option<String>, DecodeError>)
    ensures
        match r {
            Ok(v) => spec_par_default_info_string(fs@, top@) == Ok::<Option<Seq<char>>, DecodeErrorV>(match v {
                Some(s) => Some(s@),
                None => None,
            }),
            Err(e) => spec_par_default_info_string(fs@, top@) == Err::<Option<Seq<char>>, DecodeErrorV>(e@),
        },
{
    proof {
        reveal(spec_par_default_info_string);
    }
    opt_string_field(fs, "default_info_string", top, "parse_default_info_string", "parse.default_info_string")
}

#[verifier::opaque]
pub open spec fn spec_par_smart(fs: Seq<(String, HostValue)>, top: Seq<(String, HostValue)>) -> Result<bool, DecodeErrorV> {
    spec_bool_field(fs, "smart"@, top, "parse_smart"@, "parse.smart"@, true)
}

fn par_smart(fs: &Vec<(String, HostValue)>, top: &Vec<(String, HostValue)>) -> (r: Result<bool, DecodeError>)
    ensures
        match r {
            Ok(v) => spec_par_smart(fs@, top@) == Ok::<bool, DecodeErrorV>(v),
            Err(e) => spec_par_smart(fs@, top@) == Err::<bool, DecodeErrorV>(e@),
        },
{
    proof {
        reveal(spec_par_smart);
    }
    bool_field(fs, "smart", top, "parse_smart", "parse.smart", true)
}

#[verifier::opaque]
pub open spec fn spec_par_relaxed_tasklist_matching(fs: Seq<(String, HostValue)>, top: Seq<(String, HostValue)>) -> Result<bool, DecodeErrorV> {
    spec_bool_field(fs, "relaxed_tasklist_matching"@, top, "parse_relaxed_tasklist_matching"@, "parse.relaxed_tasklist_matching"@, false)
}

fn par_relaxed_tasklist_matching(fs: &Vec<(String, HostValue)>, top: &Vec<(String, HostValue)>) -> (r: Result<bool, DecodeError>)
    ensures
        match r {
            Ok(v) => spec_par_relaxed_tasklist_matching(fs@, top@) == Ok::<bool, DecodeErrorV>(v),
            Err(e) => spec_par_relaxed_tasklist_matching(fs@, top@) == Err::<bool, DecodeErrorV>(e@),
        },
{
    proof {
        reveal(spec_par_relaxed_tasklist_matching);
    }
    bool_field(fs, "relaxed_tasklist_matching", top, "parse_relaxed_tasklist_matching", "parse.relaxed_tasklist_matching", false)
}

#[verifier::opaque]
pub open spec fn spec_par_relaxed_autolinks(fs: Seq<(String, HostValue)>, top: Seq<(String, HostValue)>) -> Result<bool, DecodeErrorV> {
    spec_bool_field(fs, "relaxed_autolinks"@, top, "parse_relaxed_autolinks"@, "parse.relaxed_autolinks"@, false)
}

fn par_relaxed_autolinks(fs: &Vec<(String, HostValue)>, top: &Vec<(String, HostValue)>) -> (r: Result<bool, DecodeError>)
    ensures
        match r {
            Ok(v) => spec_par_relaxed_autolinks(fs@, top@) == Ok::<bool, DecodeErrorV>(v),
            Err(e) => spec_par_relaxed_autolinks(fs@, top@) == Err::<bool, DecodeErrorV>(e@),
        },
{
    proof {
        reveal(spec_par_relaxed_autolinks);
    }
    bool_field(fs, "relaxed_autolinks", top, "parse_relaxed_autolinks", "parse.relaxed_autolinks", false)
}

#[verifier::opaque]
pub open spec fn spec_par_broken_link_callback(fs: Seq<(String, HostValue)>, top: Seq<(String, HostValue)>) -> Result<Option<u64>, DecodeErrorV> {
    spec_callable_field(fs, "broken_link_callback"@, top, "parse_broken_link_callback"@, "parse.broken_link_callback"@)
}

fn par_broken_link_callback(fs: &Vec<(String, HostValue)>, top: &Vec<(String, HostValue)>) -> (r: Result<Option<u64>, DecodeError>)
    ensures
        match r {
            Ok(v) => spec_par_broken_link_callback(fs@, top@) == Ok::<Option<u64>, DecodeErrorV>(v),
            Err(e) => spec_par_broken_link_callback(fs@, top@) == Err::<Option<u64>, DecodeErrorV>(e@),
        },
{
    proof {
        reveal(spec_par_broken_link_callback);
    }
    callable_field(fs, "broken_link_callback", top, "parse_broken_link_callback", "parse.broken_link_callback")
}

#[verifier::opaque]
pub open spec fn spec_ren_escape(fs: Seq<(String, HostValue)>, top: Seq<(String, HostValue)>) -> Result<bool, DecodeErrorV> {
    spec_bool_field(fs, "escape"@, top, "render_escape"@, "render.escape"@, true)
}

fn ren_escape(fs: &Vec<(String, HostValue)>, top: &Vec<(String, HostValue)>) -> (r: Result<bool, DecodeError>)
    ensures
        match r {
            Ok(v) => spec_ren_escape(fs@, top@) == Ok::<bool, DecodeErrorV>(v),
            Err(e) => spec_ren_escape(fs@, top@) == Err::<bool, DecodeErrorV>(e@),
        },
{
    proof {
        reveal(spec_ren_escape);
    }
    bool_field(fs, "escape", top, "render_escape", "render.escape", true)
}

#[verifier::opaque]
pub open spec fn spec_ren_github_pre_lang(fs: Seq<(String, HostValue)>, top: Seq<(String, HostValue)>) -> Result<bool, DecodeErrorV> {
    spec_bool_field(fs, "github_pre_lang"@, top, "render_github_pre_lang"@, "render.github_pre_lang"@, true)
}

fn ren_github_pre_lang(fs: &Vec<(String, HostValue)>, top: &Vec<(String, HostValue)>) -> (r: Result<bool, DecodeError>)
    ensures
        match r {
            Ok(v) => spec_ren_github_pre_lang(fs@, top@) == Ok::<bool, DecodeErrorV>(v),
            Err(e) => spec_ren_github_pre_lang(fs@, top@) == Err::<bool, DecodeErrorV>(e@),
        },
{
    proof {
        reveal(spec_ren_github_pre_lang);
    }
    bool_field(fs, "github_pre_lang", top, "render_github_pre_lang", "render.github_pre_lang", true)
}

#[verifier::opaque]
pub open spec fn spec_ren_hardbreaks(fs: Seq<(String, HostValue)>, top: Seq<(String, HostValue)>) -> Result<bool, DecodeErrorV> {
    spec_bool_field(fs, "hardbreaks"@, top, "render_hardbreaks"@, "render.hardbreaks"@, false)
}

fn ren_hardbreaks(fs: &Vec<(String, HostValue)>, top: &Vec<(String, HostValue)>) -> (r: Result<bool, DecodeError>)
    ensures
        match r {
            Ok(v) => spec_ren_hardbreaks(fs@, top@) == Ok::<bool, DecodeErrorV>(v),
            Err(e) => spec_ren_hardbreaks(fs@, top@) == Err::<bool, DecodeErrorV>(e@),
        },
{
    proof {
        reveal(spec_ren_hardbreaks);
    }
    bool_field(fs, "hardbreaks", top, "render_hardbreaks", "render.hardbreaks", false)
}

#[verifier::opaque]
pub open spec fn spec_ren_unsafe_(fs: Seq<(String, HostValue)>, top: Seq<(String, HostValue)>) -> Result<bool, DecodeErrorV> {
    spec_bool_field(fs, "unsafe"@, top, "render_unsafe"@, "render.unsafe"@, false)
}

fn ren_unsafe_(fs: &Vec<(String, HostValue)>, top: &Vec<(String, HostValue)>) -> (r: Result<bool, DecodeError>)
    ensures
        match r {
            Ok(v) => spec_ren_unsafe_(fs@, top@) == Ok::<bool, DecodeErrorV>(v),
            Err(e) => spec_ren_unsafe_(fs@, top@) == Err::<bool, DecodeErrorV>(e@),
        },
{
    proof {
        reveal(spec_ren_unsafe_);
    }
    bool_field(fs, "unsafe", top, "render_unsafe", "render.unsafe", false)
}

#[verifier::opaque]
pub open spec fn spec_ren_width(fs: Seq<(String, HostValue)>, top: Seq<(String, HostValue)>) -> Result<u64, DecodeErrorV> {
    spec_uint_field(fs, "width"@, top, "render_width"@, "render.width"@, 80)
}

fn ren_width(fs: &Vec<(String, HostValue)>, top: &Vec<(String, HostValue)>) -> (r: Result<u64, DecodeError>)
    ensures
        match r {
            Ok(v) => spec_ren_width(fs@, top@) == Ok::<u64, DecodeErrorV>(v),
            Err(e) => spec_ren_width(fs@, top@) == Err::<u64, DecodeErrorV>(e@),
        },
{
    proof {
        reveal(spec_ren_width);
    }
    uint_field(fs, "width", top, "render_width", "render.width", 80)
}

#[verifier::opaque]
pub open spec fn spec_ren_full_info_string(fs: Seq<(String, HostValue)>, top: Seq<(String, HostValue)>) -> Result<bool, DecodeErrorV> {
    spec_bool_field(fs, "full_info_string"@, top, "render_full_info_string"@, "render.full_info_string"@, false)
}

fn ren_full_info_string(fs: &Vec<(String, HostValue)>, top: &Vec<(String, HostValue)>) -> (r: Result<bool, DecodeError>)
    ensures
        match r {
            Ok(v) => spec_ren_full_info_string(fs@, top@) == Ok::<bool, DecodeErrorV>(v),
            Err(e) => spec_ren_full_info_string(fs@, top@) == Err::<bool, DecodeErrorV>(e@),
        },
{
    proof {
        reveal(spec_ren_full_info_string);
    }
    bool_field(fs, "full_info_string", top, "render_full_info_string", "render.full_info_string", false)
}

#[verifier::opaque]
pub open spec fn spec_ren_list_style(fs: Seq<(String, HostValue)>, top: Seq<(String, HostValue)>) -> Result<ListStyleType, DecodeErrorV> {
    spec_list_style_field(fs, "list_style"@, top, "render_list_style"@, "render.list_style"@)
}

fn ren_list_style(fs: &Vec<(String, HostValue)>, top: &Vec<(String, HostValue)>) -> (r: Result<ListStyleType, DecodeError>)
    ensures
        match r {
            Ok(v) => spec_ren_list_style(fs@, top@) == Ok::<ListStyleType, DecodeErrorV>(v),
            Err(e) => spec_ren_list_style(fs@, top@) == Err::<ListStyleType, DecodeErrorV>(e@),
        },
{
    proof {
        reveal(spec_ren_list_style);
    }
    list_style_field(fs, "list_style", top, "render_list_style", "render.list_style")
}

#[verifier::opaque]
pub open spec fn spec_ren_sourcepos(fs: Seq<(String, HostValue)>, top: Seq<(String, HostValue)>) -> Result<bool, DecodeErrorV> {
    spec_bool_field(fs, "sourcepos"@, top, "render_sourcepos"@, "render.sourcepos"@, false)
}

fn ren_sourcepos(fs: &Vec<(String, HostValue)>, top: &Vec<(String, HostValue)>) -> (r: Result<bool, DecodeError>)
    ensures
        match r {
            Ok(v) => spec_ren_sourcepos(fs@, top@) == Ok::<bool, DecodeErrorV>(v),
            Err(e) => spec_ren_sourcepos(fs@, top@) == Err::<bool, DecodeErrorV>(e@),
        },
{
    proof {
        reveal(spec_ren_sourcepos);
    }
    bool_field(fs, "sourcepos", top, "render_sourcepos", "render.sourcepos", false)
}

#[verifier::opaque]
pub open spec fn spec_ren_escaped_char_spans(fs: Seq<(String, HostValue)>, top: Seq<(String, HostValue)>) -> Result<bool, DecodeErrorV> {
    spec_bool_field(fs, "escaped_char_spans"@, top, "render_escaped_char_spans"@, "render.escaped_char_spans"@, false)
}

fn ren_escaped_char_spans(fs: &Vec<(String, HostValue)>, top: &Vec<(String, HostValue)>) -> (r: Result<bool, DecodeError>)
    ensures
        match r {
            Ok(v) => spec_ren_escaped_char_spans(fs@, top@) == Ok::<bool, DecodeErrorV>(v),
            Err(e) => spec_ren_escaped_char_spans(fs@, top@) == Err::<bool, DecodeErrorV>(e@),
        },
{
    proof {
        reveal(spec_ren_escaped_char_spans);
    }
    bool_field(fs, "escaped_char_spans", top, "render_escaped_char_spans", "render.escaped_char_spans", false)
}

#[verifier::opaque]
pub open spec fn spec_ren_ignore_setext(fs: Seq<(String, HostValue)>, top: Seq<(String, HostValue)>) -> Result<bool, DecodeErrorV> {
    spec_bool_field(fs, "ignore_setext"@, top, "render_ignore_setext"@, "render.ignore_setext"@, false)
}

fn ren_ignore_setext(fs: &Vec<(String, HostValue)>, top: &Vec<(String, HostValue)>) -> (r: Result<bool, DecodeError>)
    ensures
        match r {
            Ok(v) => spec_ren_ignore_setext(fs@, top@) == Ok::<bool, DecodeErrorV>(v),
            Err(e) => spec_ren_ignore_setext(fs@, top@) == Err::<bool, DecodeErrorV>(e@),
        },
{
    proof {
        reveal(spec_ren_ignore_setext);
    }
    bool_field(fs, "ignore_setext", top, "render_ignore_setext", "render.ignore_setext", false)
}

#[verifier::opaque]
pub open spec fn spec_ren_ignore_empty_links(fs: Seq<(String, HostValue)>, top: Seq<(String, HostValue)>) -> Result<bool, DecodeErrorV> {
    spec_bool_field(fs, "ignore_empty_links"@, top, "render_ignore_empty_links"@, "render.ignore_empty_links"@, false)
}

fn ren_ignore_empty_links(fs: &Vec<(String, HostValue)>, top: &Vec<(String, HostValue)>) -> (r: Result<bool, DecodeError>)
    ensures
        match r {
            Ok(v) => spec_ren_ignore_empty_links(fs@, top@) == Ok::<bool, DecodeErrorV>(v),
            Err(e) => spec_ren_ignore_empty_links(fs@, top@) == Err::<bool, DecodeErrorV>(e@),
        },
{
    proof {
        reveal(spec_ren_ignore_empty_links);
    }
    bool_field(fs, "ignore_empty_links", top, "render_ignore_empty_links", "render.ignore_empty_links", false)
}

#[verifier::opaque]
pub open spec fn spec_ren_gfm_quirks(fs: Seq<(String, HostValue)>, top: Seq<(String, HostValue)>) -> Result<bool, DecodeErrorV> {
    spec_bool_field(fs, "gfm_quirks"@, top, "render_gfm_quirks"@, "render.gfm_quirks"@, false)
}

fn ren_gfm_quirks(fs: &Vec<(String, HostValue)>, top: &Vec<(String, HostValue)>) -> (r: Result<bool, DecodeError>)
    ensures
        match r {
            Ok(v) => spec_ren_gfm_quirks(fs@, top@) == Ok::<bool, DecodeErrorV>(v),
            Err(e) => spec_ren_gfm_quirks(fs@, top@) == Err::<bool, DecodeErrorV>(e@),
        },
{
    proof {
        reveal(spec_ren_gfm_quirks);
    }
    bool_field(fs, "gfm_quirks", top, "render_gfm_quirks", "render.gfm_quirks", false)
}

#[verifier::opaque]
pub open spec fn spec_ren_prefer_fenced(fs: Seq<(String, HostValue)>, top: Seq<(String, HostValue)>) -> Result<bool, DecodeErrorV> {
    spec_bool_field(fs, "prefer_fenced"@, top, "render_prefer_fenced"@, "render.prefer_fenced"@, false)
}

fn ren_prefer_fenced(fs: &Vec<(String, HostValue)>, top: &Vec<(String, HostValue)>) -> (r: Result<bool, DecodeError>)
    ensures
        match r {
            Ok(v) => spec_ren_prefer_fenced(fs@, top@) == Ok::<bool, DecodeErrorV>(v),
            Err(e) => spec_ren_prefer_fenced(fs@, top@) == Err::<bool, DecodeErrorV>(e@),
        },
{
    proof {
        reveal(spec_ren_prefer_fenced);
    }
    bool_field(fs, "prefer_fenced", top, "render_prefer_fenced", "render.prefer_fenced", false)
}

#[verifier::opaque]
pub open spec fn spec_ren_figure_with_caption(fs: Seq<(String, HostValue)>, top: Seq<(String, HostValue)>) -> Result<bool, DecodeErrorV> {
    spec_bool_field(fs, "figure_with_caption"@, top, "render_figure_with_caption"@, "render.figure_with_caption"@, false)
}

fn ren_figure_with_caption(fs: &Vec<(String, HostValue)>, top: &Vec<(String, HostValue)>) -> (r: Result<bool, DecodeError>)
    ensures
        match r {
            Ok(v) => spec_ren_figure_with_caption(fs@, top@) == Ok::<bool, DecodeErrorV>(v),
            Err(e) => spec_ren_figure_with_caption(fs@, top@) == Err::<bool, DecodeErrorV>(e@),
        },
{
    proof {
        reveal(spec_ren_figure_with_caption);
    }
    bool_field(fs, "figure_with_caption", top, "render_figure_with_caption", "render.figure_with_caption", false)
}

#[verifier::opaque]
pub open spec fn spec_ren_tasklist_classes(fs: Seq<(String, HostValue)>, top: Seq<(String, HostValue)>) -> Result<bool, DecodeErrorV> {
    spec_bool_field(fs, "tasklist_classes"@, top, "render_tasklist_classes"@, "render.tasklist_classes"@, false)
}

fn ren_tasklist_classes(fs: &Vec<(String, HostValue)>, top: &Vec<(String, HostValue)>) -> (r: Result<bool, DecodeError>)
    ensures
        match r {
            Ok(v) => spec_ren_tasklist_classes(fs@, top@) == Ok::<bool, DecodeErrorV>(v),
            Err(e) => spec_ren_tasklist_classes(fs@, top@) == Err::<bool, DecodeErrorV>(e@),
        },
{
    proof {
        reveal(spec_ren_tasklist_classes);
    }
    bool_field(fs, "tasklist_classes", top, "render_tasklist_classes", "render.tasklist_classes", false)
}

#[verifier::opaque]
pub open spec fn spec_ren_ol_width(fs: Seq<(String, HostValue)>, top: Seq<(String, HostValue)>) -> Result<u64, DecodeErrorV> {
    spec_uint_field(fs, "ol_width"@, top, "render_ol_width"@, "render.ol_width"@, 0)
}

fn ren_ol_width(fs: &Vec<(String, HostValue)>, top: &Vec<(String, HostValue)>) -> (r: Result<u64, DecodeError>)
    ensures
        match r {
            Ok(v) => spec_ren_ol_width(fs@, top@) == Ok::<u64, DecodeErrorV>(v),
            Err(e) => spec_ren_ol_width(fs@, top@) == Err::<u64, DecodeErrorV>(e@),
        },
{
    proof {
        reveal(spec_ren_ol_width);
    }
    uint_field(fs, "ol_width", top, "render_ol_width", "render.ol_width", 0)
}

#[verifier::opaque]
pub open spec fn spec_ren_experimental_minimize_commonmark(fs: Seq<(String, HostValue)>, top: Seq<(String, HostValue)>) -> Result<bool, DecodeErrorV> {
    spec_bool_field(fs, "experimental_minimize_commonmark"@, top, "render_experimental_minimize_commonmark"@, "render.experimental_minimize_commonmark"@, false)
}

fn ren_experimental_minimize_commonmark(fs: &Vec<(String, HostValue)>, top: &Vec<(String, HostValue)>) -> (r: Result<bool, DecodeError>)
    ensures
        match r {
            Ok(v) => spec_ren_experimental_minimize_commonmark(fs@, top@) == Ok::<bool, DecodeErrorV>(v),
            Err(e) => spec_ren_experimental_minimize_commonmark(fs@, top@) == Err::<bool, DecodeErrorV>(e@),
        },
{
    proof {
        reveal(spec_ren_experimental_minimize_commonmark);
    }
    bool_field(fs, "experimental_minimize_commonmark", top, "render_experimental_minimize_commonmark", "render.experimental_minimize_commonmark", false)
}

/// Views of executable field results, for stating the combination spec.
pub open spec fn rv_unit(r: Result<(), DecodeError>) -> Result<(), DecodeErrorV> {
    match r {
        Ok(u) => Ok(u),
        Err(e) => Err(e@),
    }
}

pub open spec fn rv_bool(r: Result<bool, DecodeError>) -> Result<bool, DecodeErrorV> {
    match r {
        Ok(v) => Ok(v),
        Err(e) => Err(e@),
    }
}

pub open spec fn rv_opt_string(r: Result<Option<String>, DecodeError>) -> Result<
    Option<Seq<char>>,
    DecodeErrorV,
> {
    match r {
        Ok(Some(v)) => Ok(Some(v@)),
        Ok(None) => Ok(None),
        Err(e) => Err(e@),
    }
}

pub open spec fn rv_callable(r: Result<Option<u64>, DecodeError>) -> Result<
    Option<u64>,
    DecodeErrorV,
> {
    match r {
        Ok(v) => Ok(v),
        Err(e) => Err(e@),
    }
}

pub open spec fn rv_wikilinks(r: Result<Option<WikiLinksTitle>, DecodeError>) -> Result<
    Option<WikiLinksTitle>,
    DecodeErrorV,
> {
    match r {
        Ok(v) => Ok(v),
        Err(e) => Err(e@),
    }
}

/// The unknown-key scan of the extension section, as a result.
#[verifier::opaque]
pub open spec fn spec_ext_keys(fs: Seq<(String, HostValue)>) -> Result<(), DecodeErrorV> {
    match first_unknown(fs, KeySpace::Extension) {
        Some(k) => Err(
            DecodeErrorV { path: "extension."@ + k, kind: DecodeErrorKind::UnknownField },
        ),
        None => Ok(()),
    }
}

fn ext_keys(fs: &Vec<(String, HostValue)>) -> (r: Result<(), DecodeError>)
    ensures
        match r {
            Ok(_) => spec_ext_keys(fs@) == Ok::<(), DecodeErrorV>(()),
            Err(e) => spec_ext_keys(fs@) == Err::<(), DecodeErrorV>(e@),
        },
{
    proof {
        reveal(spec_ext_keys);
    }
    check_keys_extension(fs)
}

/// The first half of the extension fields, combined.
pub ghost struct ExtHeadV {
    pub autolink: bool,
    pub description_lists: bool,
    pub footnotes: bool,
    pub front_matter_delimiter: Option<Seq<char>>,
    pub header_ids: Option<Seq<char>>,
    pub strikethrough: bool,
    pub superscript: bool,
    pub table: bool,
    pub tagfilter: bool,
    pub tasklist: bool,
    pub multiline_block_quotes: bool,
    pub alerts: bool,
}

/// The first half of the extension fields, decoded.
pub struct ExtHead {
    pub autolink: bool,
    pub description_lists: bool,
    pub footnotes: bool,
    pub front_matter_delimiter: Option<String>,
    pub header_ids: Option<String>,
    pub strikethrough: bool,
    pub superscript: bool,
    pub table: bool,
    pub tagfilter: bool,
    pub tasklist: bool,
    pub multiline_block_quotes: bool,
    pub alerts: bool,
}

impl View for ExtHead {
    type V = ExtHeadV;

    open spec fn view(&self) -> ExtHeadV {
        ExtHeadV {
            autolink: self.autolink,
            description_lists: self.description_lists,
            footnotes: self.footnotes,
            front_matter_delimiter: match self.front_matter_delimiter {
                Some(ref s) => Some(s@),
                None => None,
            },
            header_ids: match self.header_ids {
                Some(ref s) => Some(s@),
                None => None,
            },
            strikethrough: self.strikethrough,
            superscript: self.superscript,
            table: self.table,
            tagfilter: self.tagfilter,
            tasklist: self.tasklist,
            multiline_block_quotes: self.multiline_block_quotes,
            alerts: self.alerts,
        }
    }
}

/// The first half of the extension field results, combined in field order.
pub open spec fn combine_ext_head(
    r_keys: Result<(), DecodeErrorV>,
    r_autolink: Result<bool, DecodeErrorV>,
    r_description_lists: Result<bool, DecodeErrorV>,
    r_footnotes: Result<bool, DecodeErrorV>,
    r_front_matter_delimiter: Result<Option<Seq<char>>, DecodeErrorV>,
    r_header_ids: Result<Option<Seq<char>>, DecodeErrorV>,
    r_strikethrough: Result<bool, DecodeErrorV>,
    r_superscript: Result<bool, DecodeErrorV>,
    r_table: Result<bool, DecodeErrorV>,
    r_tagfilter: Result<bool, DecodeErrorV>,
    r_tasklist: Result<bool, DecodeErrorV>,
    r_multiline_block_quotes: Result<bool, DecodeErrorV>,
    r_alerts: Result<bool, DecodeErrorV>,
) -> Result<ExtHeadV, DecodeErrorV> {
    if r_keys is Err {
        Err(r_keys->Err_0)
    } else if r_autolink is Err {
        Err(r_autolink->Err_0)
    } else if r_description_lists is Err {
        Err(r_description_lists->Err_0)
    } else if r_footnotes is Err {
        Err(r_footnotes->Err_0)
    } else if r_front_matter_delimiter is Err {
        Err(r_front_matter_delimiter->Err_0)
    } else if r_header_ids is Err {
        Err(r_header_ids->Err_0)
    } else if r_strikethrough is Err {
        Err(r_strikethrough->Err_0)
    } else if r_superscript is Err {
        Err(r_superscript->Err_0)
    } else if r_table is Err {
        Err(r_table->Err_0)
    } else if r_tagfilter is Err {
        Err(r_tagfilter->Err_0)
    } else if r_tasklist is Err {
        Err(r_tasklist->Err_0)
    } else if r_multiline_block_quotes is Err {
        Err(r_multiline_block_quotes->Err_0)
    } else if r_alerts is Err {
        Err(r_alerts->Err_0)
    } else {
        Ok(
            ExtHeadV {
                autolink: r_autolink->Ok_0,
                description_lists: r_description_lists->Ok_0,
                footnotes: r_footnotes->Ok_0,
                front_matter_delimiter: r_front_matter_delimiter->Ok_0,
                header_ids: r_header_ids->Ok_0,
                strikethrough: r_strikethrough->Ok_0,
                superscript: r_superscript->Ok_0,
                table: r_table->Ok_0,
                tagfilter: r_tagfilter->Ok_0,
                tasklist: r_tasklist->Ok_0,
                multiline_block_quotes: r_multiline_block_quotes->Ok_0,
                alerts: r_alerts->Ok_0,
            },
        )
    }
}

/// The second half of the extension fields, combined.
pub ghost struct ExtTailV {
    pub math_dollars: bool,
    pub math_code: bool,
    pub wikilinks_title: Option<WikiLinksTitle>,
    pub wikilinks_title_after_pipe: bool,
    pub wikilinks_title_before_pipe: bool,
    pub underline: bool,
    pub subscript: bool,
    pub spoiler: bool,
    pub greentext: bool,
    pub cjk_friendly_emphasis: bool,
    pub image_url_rewriter: Option<u64>,
    pub link_url_rewriter: Option<u64>,
}

/// The second half of the extension fields, decoded.
pub struct ExtTail {
    pub math_dollars: bool,
    pub math_code: bool,
    pub wikilinks_title: Option<WikiLinksTitle>,
    pub wikilinks_title_after_pipe: bool,
    pub wikilinks_title_before_pipe: bool,
    pub underline: bool,
    pub subscript: bool,
    pub spoiler: bool,
    pub greentext: bool,
    pub cjk_friendly_emphasis: bool,
    pub image_url_rewriter: Option<u64>,
    pub link_url_rewriter: Option<u64>,
}

impl View for ExtTail {
    type V = ExtTailV;

    open spec fn view(&self) -> ExtTailV {
        ExtTailV {
            math_dollars: self.math_dollars,
            math_code: self.math_code,
            wikilinks_title: self.wikilinks_title,
            wikilinks_title_after_pipe: self.wikilinks_title_after_pipe,
            wikilinks_title_before_pipe: self.wikilinks_title_before_pipe,
            underline: self.underline,
            subscript: self.subscript,
            spoiler: self.spoiler,
            greentext: self.greentext,
            cjk_friendly_emphasis: self.cjk_friendly_emphasis,
            image_url_rewriter: self.image_url_rewriter,
            link_url_rewriter: self.link_url_rewriter,
        }
    }
}

/// The second half of the extension field results, combined in field order.
#[verifier::opaque]
pub open spec fn combine_ext_t1(
    r_math_dollars: Result<bool, DecodeErrorV>,
    r_math_code: Result<bool, DecodeErrorV>,
    r_wikilinks_title: Result<Option<WikiLinksTitle>, DecodeErrorV>,
    r_wikilinks_title_after_pipe: Result<bool, DecodeErrorV>,
    r_wikilinks_title_before_pipe: Result<bool, DecodeErrorV>,
    r_underline: Result<bool, DecodeErrorV>,
    r_subscript: Result<bool, DecodeErrorV>,
    r_spoiler: Result<bool, DecodeErrorV>,
    r_greentext: Result<bool, DecodeErrorV>,
    r_cjk_friendly_emphasis: Result<bool, DecodeErrorV>,
    r_image_url_rewriter: Result<Option<u64>, DecodeErrorV>,
    r_link_url_rewriter: Result<Option<u64>, DecodeErrorV>,
) -> Result<ExtTailV, DecodeErrorV> {
    if r_math_dollars is Err {
        Err(r_math_dollars->Err_0)
    } else if r_math_code is Err {
        Err(r_math_code->Err_0)
    } else if r_wikilinks_title is Err {
        Err(r_wikilinks_title->Err_0)
    } else if r_wikilinks_title_after_pipe is Err {
        Err(r_wikilinks_title_after_pipe->Err_0)
    } else if r_wikilinks_title_before_pipe is Err {
        Err(r_wikilinks_title_before_pipe->Err_0)
    } else if r_underline is Err {
        Err(r_underline->Err_0)
    } else if r_subscript is Err {
        Err(r_subscript->Err_0)
    } else if r_spoiler is Err {
        Err(r_spoiler->Err_0)
    } else if r_greentext is Err {
        Err(r_greentext->Err_0)
    } else if r_cjk_friendly_emphasis is Err {
        Err(r_cjk_friendly_emphasis->Err_0)
    } else if r_image_url_rewriter is Err {
        Err(r_image_url_rewriter->Err_0)
    } else if r_link_url_rewriter is Err {
        Err(r_link_url_rewriter->Err_0)
    } else {
        Ok(
            ExtTailV {
                math_dollars: r_math_dollars->Ok_0,
                math_code: r_math_code->Ok_0,
                wikilinks_title: r_wikilinks_title->Ok_0,
                wikilinks_title_after_pipe: r_wikilinks_title_after_pipe->Ok_0,
                wikilinks_title_before_pipe: r_wikilinks_title_before_pipe->Ok_0,
                underline: r_underline->Ok_0,
                subscript: r_subscript->Ok_0,
                spoiler: r_spoiler->Ok_0,
                greentext: r_greentext->Ok_0,
                cjk_friendly_emphasis: r_cjk_friendly_emphasis->Ok_0,
                image_url_rewriter: r_image_url_rewriter->Ok_0,
                link_url_rewriter: r_link_url_rewriter->Ok_0,
            },
        )
    }
}

/// The last step of the extension section: the wikilink pair is resolved
/// and the record assembled.
#[verifier::opaque]
pub open spec fn finish_ext(h: ExtHeadV, t: ExtTailV) -> Result<ExtensionOptionsV, DecodeErrorV> {
    let pair = spec_wikilink_pair(
        t.wikilinks_title,
        t.wikilinks_title_after_pipe,
        t.wikilinks_title_before_pipe,
    );
    if pair is Err {
        Err(pair->Err_0)
    } else {
        Ok(
            ExtensionOptionsV {
                    autolink: h.autolink,
                    description_lists: h.description_lists,
                    footnotes: h.footnotes,
                    front_matter_delimiter: h.front_matter_delimiter,
                    header_ids: h.header_ids,
                    strikethrough: h.strikethrough,
                    superscript: h.superscript,
                    table: h.table,
                    tagfilter: h.tagfilter,
                    tasklist: h.tasklist,
                    multiline_block_quotes: h.multiline_block_quotes,
                    alerts: h.alerts,
                    math_dollars: t.math_dollars,
                    math_code: t.math_code,
                    wikilinks_title_after_pipe: pair->Ok_0.after,
                    wikilinks_title_before_pipe: pair->Ok_0.before,
                    underline: t.underline,
                    subscript: t.subscript,
                    spoiler: t.spoiler,
                    greentext: t.greentext,
                    cjk_friendly_emphasis: t.cjk_friendly_emphasis,
                    image_url_rewriter: t.image_url_rewriter,
                    link_url_rewriter: t.link_url_rewriter,
            },
        )
    }
}

/// The second half of the extension field results, combined onto the first.
#[verifier::opaque]
pub open spec fn combine_ext_tail(
    h: ExtHeadV,
    r_math_dollars: Result<bool, DecodeErrorV>,
    r_math_code: Result<bool, DecodeErrorV>,
    r_wikilinks_title: Result<Option<WikiLinksTitle>, DecodeErrorV>,
    r_wikilinks_title_after_pipe: Result<bool, DecodeErrorV>,
    r_wikilinks_title_before_pipe: Result<bool, DecodeErrorV>,
    r_underline: Result<bool, DecodeErrorV>,
    r_subscript: Result<bool, DecodeErrorV>,
    r_spoiler: Result<bool, DecodeErrorV>,
    r_greentext: Result<bool, DecodeErrorV>,
    r_cjk_friendly_emphasis: Result<bool, DecodeErrorV>,
    r_image_url_rewriter: Result<Option<u64>, DecodeErrorV>,
    r_link_url_rewriter: Result<Option<u64>, DecodeErrorV>,
) -> Result<ExtensionOptionsV, DecodeErrorV> {
    match combine_ext_t1(r_math_dollars, r_math_code, r_wikilinks_title, r_wikilinks_title_after_pipe, r_wikilinks_title_before_pipe, r_underline, r_subscript, r_spoiler, r_greentext, r_cjk_friendly_emphasis, r_image_url_rewriter, r_link_url_rewriter) {
        Err(e) => Err(e),
        Ok(t) => finish_ext(h, t),
    }
}

proof fn lemma_tail_err(h: ExtHeadV, r_math_dollars: Result<bool, DecodeErrorV>,
    r_math_code: Result<bool, DecodeErrorV>,
    r_wikilinks_title: Result<Option<WikiLinksTitle>, DecodeErrorV>,
    r_wikilinks_title_after_pipe: Result<bool, DecodeErrorV>,
    r_wikilinks_title_before_pipe: Result<bool, DecodeErrorV>,
    r_underline: Result<bool, DecodeErrorV>,
    r_subscript: Result<bool, DecodeErrorV>,
    r_spoiler: Result<bool, DecodeErrorV>,
    r_greentext: Result<bool, DecodeErrorV>,
    r_cjk_friendly_emphasis: Result<bool, DecodeErrorV>,
    r_image_url_rewriter: Result<Option<u64>, DecodeErrorV>,
    r_link_url_rewriter: Result<Option<u64>, DecodeErrorV>, e: DecodeErrorV)
    requires
        combine_ext_t1(r_math_dollars, r_math_code, r_wikilinks_title, r_wikilinks_title_after_pipe, r_wikilinks_title_before_pipe, r_underline, r_subscript, r_spoiler, r_greentext, r_cjk_friendly_emphasis, r_image_url_rewriter, r_link_url_rewriter) == Err::<ExtTailV, DecodeErrorV>(e),
    ensures
        combine_ext_tail(h, r_math_dollars, r_math_code, r_wikilinks_title, r_wikilinks_title_after_pipe, r_wikilinks_title_before_pipe, r_underline, r_subscript, r_spoiler, r_greentext, r_cjk_friendly_emphasis, r_image_url_rewriter, r_link_url_rewriter) == Err::<ExtensionOptionsV, DecodeErrorV>(e),
{
    reveal(combine_ext_tail);
}

proof fn lemma_tail_ok(h: ExtHeadV, r_math_dollars: Result<bool, DecodeErrorV>,
    r_math_code: Result<bool, DecodeErrorV>,
    r_wikilinks_title: Result<Option<WikiLinksTitle>, DecodeErrorV>,
    r_wikilinks_title_after_pipe: Result<bool, DecodeErrorV>,
    r_wikilinks_title_before_pipe: Result<bool, DecodeErrorV>,
    r_underline: Result<bool, DecodeErrorV>,
    r_subscript: Result<bool, DecodeErrorV>,
    r_spoiler: Result<bool, DecodeErrorV>,
    r_greentext: Result<bool, DecodeErrorV>,
    r_cjk_friendly_emphasis: Result<bool, DecodeErrorV>,
    r_image_url_rewriter: Result<Option<u64>, DecodeErrorV>,
    r_link_url_rewriter: Result<Option<u64>, DecodeErrorV>, t: ExtTailV)
    requires
        combine_ext_t1(r_math_dollars, r_math_code, r_wikilinks_title, r_wikilinks_title_after_pipe, r_wikilinks_title_before_pipe, r_underline, r_subscript, r_spoiler, r_greentext, r_cjk_friendly_emphasis, r_image_url_rewriter, r_link_url_rewriter) == Ok::<ExtTailV, DecodeErrorV>(t),
    ensures
        combine_ext_tail(h, r_math_dollars, r_math_code, r_wikilinks_title, r_wikilinks_title_after_pipe, r_wikilinks_title_before_pipe, r_underline, r_subscript, r_spoiler, r_greentext, r_cjk_friendly_emphasis, r_image_url_rewriter, r_link_url_rewriter) == finish_ext(h, t),
{
    reveal(combine_ext_tail);
}

#[verifier::rlimit(50)]
#[verifier::spinoff_prover]
fn combine_ext_t1_x(
    r_math_dollars: Result<bool, DecodeError>,
    r_math_code: Result<bool, DecodeError>,
    r_wikilinks_title: Result<Option<WikiLinksTitle>, DecodeError>,
    r_wikilinks_title_after_pipe: Result<bool, DecodeError>,
    r_wikilinks_title_before_pipe: Result<bool, DecodeError>,
    r_underline: Result<bool, DecodeError>,
    r_subscript: Result<bool, DecodeError>,
    r_spoiler: Result<bool, DecodeError>,
    r_greentext: Result<bool, DecodeError>,
    r_cjk_friendly_emphasis: Result<bool, DecodeError>,
    r_image_url_rewriter: Result<Option<u64>, DecodeError>,
    r_link_url_rewriter: Result<Option<u64>, DecodeError>,
) -> (r: Result<ExtTail, DecodeError>)
    ensures
        match r {
            Ok(t) => combine_ext_t1(
                rv_bool(r_math_dollars),
            rv_bool(r_math_code),
            rv_wikilinks(r_wikilinks_title),
            rv_bool(r_wikilinks_title_after_pipe),
            rv_bool(r_wikilinks_title_before_pipe),
            rv_bool(r_underline),
            rv_bool(r_subscript),
            rv_bool(r_spoiler),
            rv_bool(r_greentext),
            rv_bool(r_cjk_friendly_emphasis),
            rv_callable(r_image_url_rewriter),
            rv_callable(r_link_url_rewriter),
            ) == Ok::<ExtTailV, DecodeErrorV>(t@),
            Err(e) => combine_ext_t1(
                rv_bool(r_math_dollars),
            rv_bool(r_math_code),
            rv_wikilinks(r_wikilinks_title),
            rv_bool(r_wikilinks_title_after_pipe),
            rv_bool(r_wikilinks_title_before_pipe),
            rv_bool(r_underline),
            rv_bool(r_subscript),
            rv_bool(r_spoiler),
            rv_bool(r_greentext),
            rv_bool(r_cjk_friendly_emphasis),
            rv_callable(r_image_url_rewriter),
            rv_callable(r_link_url_rewriter),
            ) == Err::<ExtTailV, DecodeErrorV>(e@),
        },
{
    proof {
        reveal(combine_ext_t1);
    }
    let math_dollars = match r_math_dollars {
        Ok(v) => v,
        Err(e) => return Err(e),
    };
    let math_code = match r_math_code {
        Ok(v) => v,
        Err(e) => return Err(e),
    };
    let wikilinks_title = match r_wikilinks_title {
        Ok(v) => v,
        Err(e) => return Err(e),
    };
    let wikilinks_title_after_pipe = match r_wikilinks_title_after_pipe {
        Ok(v) => v,
        Err(e) => return Err(e),
    };
    let wikilinks_title_before_pipe = match r_wikilinks_title_before_pipe {
        Ok(v) => v,
        Err(e) => return Err(e),
    };
    let underline = match r_underline {
        Ok(v) => v,
        Err(e) => return Err(e),
    };
    let subscript = match r_subscript {
        Ok(v) => v,
        Err(e) => return Err(e),
    };
    let spoiler = match r_spoiler {
        Ok(v) => v,
        Err(e) => return Err(e),
    };
    let greentext = match r_greentext {
        Ok(v) => v,
        Err(e) => return Err(e),
    };
    let cjk_friendly_emphasis = match r_cjk_friendly_emphasis {
        Ok(v) => v,
        Err(e) => return Err(e),
    };
    let image_url_rewriter = match r_image_url_rewriter {
        Ok(v) => v,
        Err(e) => return Err(e),
    };
    let link_url_rewriter = match r_link_url_rewriter {
        Ok(v) => v,
        Err(e) => return Err(e),
    };
    Ok(
        ExtTail {
            math_dollars,
            math_code,
            wikilinks_title,
            wikilinks_title_after_pipe,
            wikilinks_title_before_pipe,
            underline,
            subscript,
            spoiler,
            greentext,
            cjk_friendly_emphasis,
            image_url_rewriter,
            link_url_rewriter,
        },
    )
}

/// How the extension section's field results combine: the first offence in
/// field order is reported, else the record is assembled.
pub open spec fn combine_extension(
    r_keys: Result<(), DecodeErrorV>, r_autolink: Result<bool, DecodeErrorV>, r_description_lists: Result<bool, DecodeErrorV>, r_footnotes: Result<bool, DecodeErrorV>, r_front_matter_delimiter: Result<Option<Seq<char>>, DecodeErrorV>, r_header_ids: Result<Option<Seq<char>>, DecodeErrorV>, r_strikethrough: Result<bool, DecodeErrorV>, r_superscript: Result<bool, DecodeErrorV>, r_table: Result<bool, DecodeErrorV>, r_tagfilter: Result<bool, DecodeErrorV>, r_tasklist: Result<bool, DecodeErrorV>, r_multiline_block_quotes: Result<bool, DecodeErrorV>, r_alerts: Result<bool, DecodeErrorV>, r_math_dollars: Result<bool, DecodeErrorV>, r_math_code: Result<bool, DecodeErrorV>, r_wikilinks_title: Result<Option<WikiLinksTitle>, DecodeErrorV>, r_wikilinks_title_after_pipe: Result<bool, DecodeErrorV>, r_wikilinks_title_before_pipe: Result<bool, DecodeErrorV>, r_underline: Result<bool, DecodeErrorV>, r_subscript: Result<bool, DecodeErrorV>, r_spoiler: Result<bool, DecodeErrorV>, r_greentext: Result<bool, DecodeErrorV>, r_cjk_friendly_emphasis: Result<bool, DecodeErrorV>, r_image_url_rewriter: Result<Option<u64>, DecodeErrorV>, r_link_url_rewriter: Result<Option<u64>, DecodeErrorV>,
) -> Result<ExtensionOptionsV, DecodeErrorV> {
    match combine_ext_head(r_keys, r_autolink, r_description_lists, r_footnotes, r_front_matter_delimiter, r_header_ids, r_strikethrough, r_superscript, r_table, r_tagfilter, r_tasklist, r_multiline_block_quotes, r_alerts) {
        Err(e) => Err(e),
        Ok(h) => combine_ext_tail(h, r_math_dollars, r_math_code, r_wikilinks_title, r_wikilinks_title_after_pipe, r_wikilinks_title_before_pipe, r_underline, r_subscript, r_spoiler, r_greentext, r_cjk_friendly_emphasis, r_image_url_rewriter, r_link_url_rewriter),
    }
}

#[verifier::rlimit(50)]
#[verifier::spinoff_prover]
fn combine_ext_head_x(
    r_keys: Result<(), DecodeError>,
    r_autolink: Result<bool, DecodeError>,
    r_description_lists: Result<bool, DecodeError>,
    r_footnotes: Result<bool, DecodeError>,
    r_front_matter_delimiter: Result<Option<String>, DecodeError>,
    r_header_ids: Result<Option<String>, DecodeError>,
    r_strikethrough: Result<bool, DecodeError>,
    r_superscript: Result<bool, DecodeError>,
    r_table: Result<bool, DecodeError>,
    r_tagfilter: Result<bool, DecodeError>,
    r_tasklist: Result<bool, DecodeError>,
    r_multiline_block_quotes: Result<bool, DecodeError>,
    r_alerts: Result<bool, DecodeError>,
) -> (r: Result<ExtHead, DecodeError>)
    ensures
        match r {
            Ok(h) => combine_ext_head(
                rv_unit(r_keys),
            rv_bool(r_autolink),
            rv_bool(r_description_lists),
            rv_bool(r_footnotes),
            rv_opt_string(r_front_matter_delimiter),
            rv_opt_string(r_header_ids),
            rv_bool(r_strikethrough),
            rv_bool(r_superscript),
            rv_bool(r_table),
            rv_bool(r_tagfilter),
            rv_bool(r_tasklist),
            rv_bool(r_multiline_block_quotes),
            rv_bool(r_alerts),
            ) == Ok::<ExtHeadV, DecodeErrorV>(h@),
            Err(e) => combine_ext_head(
                rv_unit(r_keys),
            rv_bool(r_autolink),
            rv_bool(r_description_lists),
            rv_bool(r_footnotes),
            rv_opt_string(r_front_matter_delimiter),
            rv_opt_string(r_header_ids),
            rv_bool(r_strikethrough),
            rv_bool(r_superscript),
            rv_bool(r_table),
            rv_bool(r_tagfilter),
            rv_bool(r_tasklist),
            rv_bool(r_multiline_block_quotes),
            rv_bool(r_alerts),
            ) == Err::<ExtHeadV, DecodeErrorV>(e@),
        },
{
    if let Err(e) = r_keys {
        return Err(e);
    }
    let autolink = match r_autolink {
        Ok(v) => v,
        Err(e) => return Err(e),
    };
    let description_lists = match r_description_lists {
        Ok(v) => v,
        Err(e) => return Err(e),
    };
    let footnotes = match r_footnotes {
        Ok(v) => v,
        Err(e) => return Err(e),
    };
    let front_matter_delimiter = match r_front_matter_delimiter {
        Ok(v) => v,
        Err(e) => return Err(e),
    };
    let header_ids = match r_header_ids {
        Ok(v) => v,
        Err(e) => return Err(e),
    };
    let strikethrough = match r_strikethrough {
        Ok(v) => v,
        Err(e) => return Err(e),
    };
    let superscript = match r_superscript {
        Ok(v) => v,
        Err(e) => return Err(e),
    };
    let table = match r_table {
        Ok(v) => v,
        Err(e) => return Err(e),
    };
    let tagfilter = match r_tagfilter {
        Ok(v) => v,
        Err(e) => return Err(e),
    };
    let tasklist = match r_tasklist {
        Ok(v) => v,
        Err(e) => return Err(e),
    };
    let multiline_block_quotes = match r_multiline_block_quotes {
        Ok(v) => v,
        Err(e) => return Err(e),
    };
    let alerts = match r_alerts {
        Ok(v) => v,
        Err(e) => return Err(e),
    };
    Ok(
        ExtHead {
            autolink,
            description_lists,
            footnotes,
            front_matter_delimiter,
            header_ids,
            strikethrough,
            superscript,
            table,
            tagfilter,
            tasklist,
            multiline_block_quotes,
            alerts,
        },
    )
}

proof fn lemma_finish_ext_err(h: ExtHeadV, t: ExtTailV, e: DecodeErrorV)
    requires
        spec_wikilink_pair(
            t.wikilinks_title,
            t.wikilinks_title_after_pipe,
            t.wikilinks_title_before_pipe,
        ) == Err::<WikiSidesV, DecodeErrorV>(e),
    ensures
        finish_ext(h, t) == Err::<ExtensionOptionsV, DecodeErrorV>(e),
{
    reveal(finish_ext);
    reveal(spec_wikilink_pair);
}

proof fn lemma_finish_ext_ok(h: ExtHeadV, t: ExtTailV, pair: WikiSidesV)
    requires
        spec_wikilink_pair(
            t.wikilinks_title,
            t.wikilinks_title_after_pipe,
            t.wikilinks_title_before_pipe,
        ) == Ok::<WikiSidesV, DecodeErrorV>(pair),
    ensures
        finish_ext(h, t) == Ok::<ExtensionOptionsV, DecodeErrorV>(
            ExtensionOptionsV {
                autolink: h.autolink,
                description_lists: h.description_lists,
                footnotes: h.footnotes,
                front_matter_delimiter: h.front_matter_delimiter,
                header_ids: h.header_ids,
                strikethrough: h.strikethrough,
                superscript: h.superscript,
                table: h.table,
                tagfilter: h.tagfilter,
                tasklist: h.tasklist,
                multiline_block_quotes: h.multiline_block_quotes,
                alerts: h.alerts,
                math_dollars: t.math_dollars,
                math_code: t.math_code,
                wikilinks_title_after_pipe: pair.after,
                wikilinks_title_before_pipe: pair.before,
                underline: t.underline,
                subscript: t.subscript,
                spoiler: t.spoiler,
                greentext: t.greentext,
                cjk_friendly_emphasis: t.cjk_friendly_emphasis,
                image_url_rewriter: t.image_url_rewriter,
                link_url_rewriter: t.link_url_rewriter,
            },
        ),
{
    reveal(finish_ext);
}

#[verifier::rlimit(100)]
#[verifier::spinoff_prover]
fn finish_ext_x(h: &ExtHead, t: &ExtTail) -> (r: Result<ExtensionOptions, DecodeError>)
    ensures
        match r {
            Ok(o) => finish_ext(h@, t@) == Ok::<ExtensionOptionsV, DecodeErrorV>(o@),
            Err(e) => finish_ext(h@, t@) == Err::<ExtensionOptionsV, DecodeErrorV>(e@),
        },
{
    let pair = match wikilink_pair(t.wikilinks_title, t.wikilinks_title_after_pipe, t.wikilinks_title_before_pipe) {
        Ok(p) => p,
        Err(e) => {
            proof {
                lemma_finish_ext_err(h@, t@, e@);
            }
            return Err(e);
        },
    };
    let o = build_extension(h, t, pair);
    proof {
        lemma_finish_ext_ok(h@, t@, pair@);
        assert(o@ == (ExtensionOptionsV {
                autolink: h@.autolink,
                description_lists: h@.description_lists,
                footnotes: h@.footnotes,
                front_matter_delimiter: h@.front_matter_delimiter,
                header_ids: h@.header_ids,
                strikethrough: h@.strikethrough,
                superscript: h@.superscript,
                table: h@.table,
                tagfilter: h@.tagfilter,
                tasklist: h@.tasklist,
                multiline_block_quotes: h@.multiline_block_quotes,
                alerts: h@.alerts,
                math_dollars: t@.math_dollars,
                math_code: t@.math_code,
                wikilinks_title_after_pipe: pair@.after,
                wikilinks_title_before_pipe: pair@.before,
                underline: t@.underline,
                subscript: t@.subscript,
                spoiler: t@.spoiler,
                greentext: t@.greentext,
                cjk_friendly_emphasis: t@.cjk_friendly_emphasis,
                image_url_rewriter: t@.image_url_rewriter,
                link_url_rewriter: t@.link_url_rewriter,
            }));
    }
    Ok(o)
}

fn combine_ext_tail_x(
    h: &ExtHead,
    r_math_dollars: Result<bool, DecodeError>,
    r_math_code: Result<bool, DecodeError>,
    r_wikilinks_title: Result<Option<WikiLinksTitle>, DecodeError>,
    r_wikilinks_title_after_pipe: Result<bool, DecodeError>,
    r_wikilinks_title_before_pipe: Result<bool, DecodeError>,
    r_underline: Result<bool, DecodeError>,
    r_subscript: Result<bool, DecodeError>,
    r_spoiler: Result<bool, DecodeError>,
    r_greentext: Result<bool, DecodeError>,
    r_cjk_friendly_emphasis: Result<bool, DecodeError>,
    r_image_url_rewriter: Result<Option<u64>, DecodeError>,
    r_link_url_rewriter: Result<Option<u64>, DecodeError>,
) -> (r: Result<ExtensionOptions, DecodeError>)
    ensures
        match r {
            Ok(o) => combine_ext_tail(
                h@,
            rv_bool(r_math_dollars),
            rv_bool(r_math_code),
            rv_wikilinks(r_wikilinks_title),
            rv_bool(r_wikilinks_title_after_pipe),
            rv_bool(r_wikilinks_title_before_pipe),
            rv_bool(r_underline),
            rv_bool(r_subscript),
            rv_bool(r_spoiler),
            rv_bool(r_greentext),
            rv_bool(r_cjk_friendly_emphasis),
            rv_callable(r_image_url_rewriter),
            rv_callable(r_link_url_rewriter),
            ) == Ok::<ExtensionOptionsV, DecodeErrorV>(o@),
            Err(e) => combine_ext_tail(
                h@,
            rv_bool(r_math_dollars),
            rv_bool(r_math_code),
            rv_wikilinks(r_wikilinks_title),
            rv_bool(r_wikilinks_title_after_pipe),
            rv_bool(r_wikilinks_title_before_pipe),
            rv_bool(r_underline),
            rv_bool(r_subscript),
            rv_bool(r_spoiler),
            rv_bool(r_greentext),
            rv_bool(r_cjk_friendly_emphasis),
            rv_callable(r_image_url_rewriter),
            rv_callable(r_link_url_rewriter),
            ) == Err::<ExtensionOptionsV, DecodeErrorV>(e@),
        },
{
    let ghost g_r_math_dollars = r_math_dollars;
    let ghost g_r_math_code = r_math_code;
    let ghost g_r_wikilinks_title = r_wikilinks_title;
    let ghost g_r_wikilinks_title_after_pipe = r_wikilinks_title_after_pipe;
    let ghost g_r_wikilinks_title_before_pipe = r_wikilinks_title_before_pipe;
    let ghost g_r_underline = r_underline;
    let ghost g_r_subscript = r_subscript;
    let ghost g_r_spoiler = r_spoiler;
    let ghost g_r_greentext = r_greentext;
    let ghost g_r_cjk_friendly_emphasis = r_cjk_friendly_emphasis;
    let ghost g_r_image_url_rewriter = r_image_url_rewriter;
    let ghost g_r_link_url_rewriter = r_link_url_rewriter;
    let t = match combine_ext_t1_x(r_math_dollars, r_math_code, r_wikilinks_title, r_wikilinks_title_after_pipe, r_wikilinks_title_before_pipe, r_underline, r_subscript, r_spoiler, r_greentext, r_cjk_friendly_emphasis, r_image_url_rewriter, r_link_url_rewriter) {
        Ok(t) => t,
        Err(e) => {
            proof {
                lemma_tail_err(h@, rv_bool(g_r_math_dollars), rv_bool(g_r_math_code), rv_wikilinks(g_r_wikilinks_title), rv_bool(g_r_wikilinks_title_after_pipe), rv_bool(g_r_wikilinks_title_before_pipe), rv_bool(g_r_underline), rv_bool(g_r_subscript), rv_bool(g_r_spoiler), rv_bool(g_r_greentext), rv_bool(g_r_cjk_friendly_emphasis), rv_callable(g_r_image_url_rewriter), rv_callable(g_r_link_url_rewriter), e@);
            }
            return Err(e);
        },
    };
    proof {
        lemma_tail_ok(h@, rv_bool(g_r_math_dollars), rv_bool(g_r_math_code), rv_wikilinks(g_r_wikilinks_title), rv_bool(g_r_wikilinks_title_after_pipe), rv_bool(g_r_wikilinks_title_before_pipe), rv_bool(g_r_underline), rv_bool(g_r_subscript), rv_bool(g_r_spoiler), rv_bool(g_r_greentext), rv_bool(g_r_cjk_friendly_emphasis), rv_callable(g_r_image_url_rewriter), rv_callable(g_r_link_url_rewriter), t@);
    }
    finish_ext_x(h, &t)
}

fn combine_extension_x(
    r_keys: Result<(), DecodeError>,
    r_autolink: Result<bool, DecodeError>,
    r_description_lists: Result<bool, DecodeError>,
    r_footnotes: Result<bool, DecodeError>,
    r_front_matter_delimiter: Result<Option<String>, DecodeError>,
    r_header_ids: Result<Option<String>, DecodeError>,
    r_strikethrough: Result<bool, DecodeError>,
    r_superscript: Result<bool, DecodeError>,
    r_table: Result<bool, DecodeError>,
    r_tagfilter: Result<bool, DecodeError>,
    r_tasklist: Result<bool, DecodeError>,
    r_multiline_block_quotes: Result<bool, DecodeError>,
    r_alerts: Result<bool, DecodeError>,
    r_math_dollars: Result<bool, DecodeError>,
    r_math_code: Result<bool, DecodeError>,
    r_wikilinks_title: Result<Option<WikiLinksTitle>, DecodeError>,
    r_wikilinks_title_after_pipe: Result<bool, DecodeError>,
    r_wikilinks_title_before_pipe: Result<bool, DecodeError>,
    r_underline: Result<bool, DecodeError>,
    r_subscript: Result<bool, DecodeError>,
    r_spoiler: Result<bool, DecodeError>,
    r_greentext: Result<bool, DecodeError>,
    r_cjk_friendly_emphasis: Result<bool, DecodeError>,
    r_image_url_rewriter: Result<Option<u64>, DecodeError>,
    r_link_url_rewriter: Result<Option<u64>, DecodeError>,
) -> (r: Result<ExtensionOptions, DecodeError>)
    ensures
        match r {
            Ok(o) => combine_extension(
                rv_unit(r_keys),
            rv_bool(r_autolink),
            rv_bool(r_description_lists),
            rv_bool(r_footnotes),
            rv_opt_string(r_front_matter_delimiter),
            rv_opt_string(r_header_ids),
            rv_bool(r_strikethrough),
            rv_bool(r_superscript),
            rv_bool(r_table),
            rv_bool(r_tagfilter),
            rv_bool(r_tasklist),
            rv_bool(r_multiline_block_quotes),
            rv_bool(r_alerts),
            rv_bool(r_math_dollars),
            rv_bool(r_math_code),
            rv_wikilinks(r_wikilinks_title),
            rv_bool(r_wikilinks_title_after_pipe),
            rv_bool(r_wikilinks_title_before_pipe),
            rv_bool(r_underline),
            rv_bool(r_subscript),
            rv_bool(r_spoiler),
            rv_bool(r_greentext),
            rv_bool(r_cjk_friendly_emphasis),
            rv_callable(r_image_url_rewriter),
            rv_callable(r_link_url_rewriter),
            ) == Ok::<ExtensionOptionsV, DecodeErrorV>(o@),
            Err(e) => combine_extension(
                rv_unit(r_keys),
            rv_bool(r_autolink),
            rv_bool(r_description_lists),
            rv_bool(r_footnotes),
            rv_opt_string(r_front_matter_delimiter),
            rv_opt_string(r_header_ids),
            rv_bool(r_strikethrough),
            rv_bool(r_superscript),
            rv_bool(r_table),
            rv_bool(r_tagfilter),
            rv_bool(r_tasklist),
            rv_bool(r_multiline_block_quotes),
            rv_bool(r_alerts),
            rv_bool(r_math_dollars),
            rv_bool(r_math_code),
            rv_wikilinks(r_wikilinks_title),
            rv_bool(r_wikilinks_title_after_pipe),
            rv_bool(r_wikilinks_title_before_pipe),
            rv_bool(r_underline),
            rv_bool(r_subscript),
            rv_bool(r_spoiler),
            rv_bool(r_greentext),
            rv_bool(r_cjk_friendly_emphasis),
            rv_callable(r_image_url_rewriter),
            rv_callable(r_link_url_rewriter),
            ) == Err::<ExtensionOptionsV, DecodeErrorV>(e@),
        },
{
    let h = match combine_ext_head_x(r_keys, r_autolink, r_description_lists, r_footnotes, r_front_matter_delimiter, r_header_ids, r_strikethrough, r_superscript, r_table, r_tagfilter, r_tasklist, r_multiline_block_quotes, r_alerts) {
        Ok(h) => h,
        Err(e) => return Err(e),
    };
    combine_ext_tail_x(&h, r_math_dollars, r_math_code, r_wikilinks_title, r_wikilinks_title_after_pipe, r_wikilinks_title_before_pipe, r_underline, r_subscript, r_spoiler, r_greentext, r_cjk_friendly_emphasis, r_image_url_rewriter, r_link_url_rewriter)
}

/// The extension section, decoded from its section object and the flat keys
/// of the top object.
#[verifier::opaque]
pub open spec fn spec_decode_extension(
    fs: Seq<(String, HostValue)>,
    top: Seq<(String, HostValue)>,
) -> Result<ExtensionOptionsV, DecodeErrorV> {
    combine_extension(
        spec_ext_keys(fs),
        spec_ext_autolink(fs, top),
        spec_ext_description_lists(fs, top),
        spec_ext_footnotes(fs, top),
        spec_ext_front_matter_delimiter(fs, top),
        spec_ext_header_ids(fs, top),
        spec_ext_strikethrough(fs, top),
        spec_ext_superscript(fs, top),
        spec_ext_table(fs, top),
        spec_ext_tagfilter(fs, top),
        spec_ext_tasklist(fs, top),
        spec_ext_multiline_block_quotes(fs, top),
        spec_ext_alerts(fs, top),
        spec_ext_math_dollars(fs, top),
        spec_ext_math_code(fs, top),
        spec_ext_wikilinks_title(fs, top),
        spec_ext_wikilinks_title_after_pipe(fs, top),
        spec_ext_wikilinks_title_before_pipe(fs, top),
        spec_ext_underline(fs, top),
        spec_ext_subscript(fs, top),
        spec_ext_spoiler(fs, top),
        spec_ext_greentext(fs, top),
        spec_ext_cjk_friendly_emphasis(fs, top),
        spec_ext_image_url_rewriter(fs, top),
        spec_ext_link_url_rewriter(fs, top),
    )
}

#[verifier::rlimit(50)]
fn decode_extension(fs: &Vec<(String, HostValue)>, top: &Vec<(String, HostValue)>) -> (r: Result<ExtensionOptions, DecodeError>)
    ensures
        match r {
            Ok(o) => spec_decode_extension(fs@, top@) == Ok::<ExtensionOptionsV, DecodeErrorV>(o@),
            Err(e) => spec_decode_extension(fs@, top@) == Err::<ExtensionOptionsV, DecodeErrorV>(e@),
        },
{
    proof {
        reveal(spec_decode_extension);
    }
    let r_keys = ext_keys(fs);
    let r_autolink = ext_autolink(fs, top);
    let r_description_lists = ext_description_lists(fs, top);
    let r_footnotes = ext_footnotes(fs, top);
    let r_front_matter_delimiter = ext_front_matter_delimiter(fs, top);
    let r_header_ids = ext_header_ids(fs, top);
    let r_strikethrough = ext_strikethrough(fs, top);
    let r_superscript = ext_superscript(fs, top);
    let r_table = ext_table(fs, top);
    let r_tagfilter = ext_tagfilter(fs, top);
    let r_tasklist = ext_tasklist(fs, top);
    let r_multiline_block_quotes = ext_multiline_block_quotes(fs, top);
    let r_alerts = ext_alerts(fs, top);
    let r_math_dollars = ext_math_dollars(fs, top);
    let r_math_code = ext_math_code(fs, top);
    let r_wikilinks_title = ext_wikilinks_title(fs, top);
    let r_wikilinks_title_after_pipe = ext_wikilinks_title_after_pipe(fs, top);
    let r_wikilinks_title_before_pipe = ext_wikilinks_title_before_pipe(fs, top);
    let r_underline = ext_underline(fs, top);
    let r_subscript = ext_subscript(fs, top);
    let r_spoiler = ext_spoiler(fs, top);
    let r_greentext = ext_greentext(fs, top);
    let r_cjk_friendly_emphasis = ext_cjk_friendly_emphasis(fs, top);
    let r_image_url_rewriter = ext_image_url_rewriter(fs, top);
    let r_link_url_rewriter = ext_link_url_rewriter(fs, top);
    combine_extension_x(
        r_keys,
        r_autolink,
        r_description_lists,
        r_footnotes,
        r_front_matter_delimiter,
        r_header_ids,
        r_strikethrough,
        r_superscript,
        r_table,
        r_tagfilter,
        r_tasklist,
        r_multiline_block_quotes,
        r_alerts,
        r_math_dollars,
        r_math_code,
        r_wikilinks_title,
        r_wikilinks_title_after_pipe,
        r_wikilinks_title_before_pipe,
        r_underline,
        r_subscript,
        r_spoiler,
        r_greentext,
        r_cjk_friendly_emphasis,
        r_image_url_rewriter,
        r_link_url_rewriter,
    )
}

/// The parse section, decoded from its section object and the flat keys
/// of the top object. The first offence in field order is reported.
#[verifier::opaque]
pub open spec fn spec_decode_parse(fs: Seq<(String, HostValue)>, top: Seq<(String, HostValue)>) -> Result<ParseOptionsV, DecodeErrorV> {
    if first_unknown(fs, KeySpace::Parse) is Some {
        Err(DecodeErrorV { path: "parse."@ + first_unknown(fs, KeySpace::Parse)->Some_0, kind: DecodeErrorKind::UnknownField })
    } else if spec_par_default_info_string(fs, top) is Err {
        Err(spec_par_default_info_string(fs, top)->Err_0)
    } else if spec_par_smart(fs, top) is Err {
        Err(spec_par_smart(fs, top)->Err_0)
    } else if spec_par_relaxed_tasklist_matching(fs, top) is Err {
        Err(spec_par_relaxed_tasklist_matching(fs, top)->Err_0)
    } else if spec_par_relaxed_autolinks(fs, top) is Err {
        Err(spec_par_relaxed_autolinks(fs, top)->Err_0)
    } else if spec_par_broken_link_callback(fs, top) is Err {
        Err(spec_par_broken_link_callback(fs, top)->Err_0)
    } else {
        Ok(
            ParseOptionsV {
                default_info_string: spec_par_default_info_string(fs, top)->Ok_0,
                smart: spec_par_smart(fs, top)->Ok_0,
                relaxed_tasklist_matching: spec_par_relaxed_tasklist_matching(fs, top)->Ok_0,
                relaxed_autolinks: spec_par_relaxed_autolinks(fs, top)->Ok_0,
                broken_link_callback: spec_par_broken_link_callback(fs, top)->Ok_0,
            },
        )
    }
}

#[verifier::rlimit(50)]
fn decode_parse(fs: &Vec<(String, HostValue)>, top: &Vec<(String, HostValue)>) -> (r: Result<ParseOptions, DecodeError>)
    ensures
        match r {
            Ok(o) => spec_decode_parse(fs@, top@) == Ok::<ParseOptionsV, DecodeErrorV>(o@),
            Err(e) => spec_decode_parse(fs@, top@) == Err::<ParseOptionsV, DecodeErrorV>(e@),
        },
{
    proof {
        reveal(spec_decode_parse);
    }
    if let Err(e) = check_keys_parse(fs) {
        return Err(e);
    }
    let default_info_string = match par_default_info_string(fs, top) {
        Ok(v) => v,
        Err(e) => return Err(e),
    };
    let smart = match par_smart(fs, top) {
        Ok(v) => v,
        Err(e) => return Err(e),
    };
    let relaxed_tasklist_matching = match par_relaxed_tasklist_matching(fs, top) {
        Ok(v) => v,
        Err(e) => return Err(e),
    };
    let relaxed_autolinks = match par_relaxed_autolinks(fs, top) {
        Ok(v) => v,
        Err(e) => return Err(e),
    };
    let broken_link_callback = match par_broken_link_callback(fs, top) {
        Ok(v) => v,
        Err(e) => return Err(e),
    };
    Ok(
        ParseOptions {
            default_info_string,
            smart,
            relaxed_tasklist_matching,
            relaxed_autolinks,
            broken_link_callback,
        },
    )
}

/// The render section, decoded from its section object and the flat keys
/// of the top object. The first offence in field order is reported.
#[verifier::opaque]
pub open spec fn spec_decode_render(fs: Seq<(String, HostValue)>, top: Seq<(String, HostValue)>) -> Result<RenderOptionsV, DecodeErrorV> {
    if first_unknown(fs, KeySpace::Render) is Some {
        Err(DecodeErrorV { path: "render."@ + first_unknown(fs, KeySpace::Render)->Some_0, kind: DecodeErrorKind::UnknownField })
    } else if spec_ren_escape(fs, top) is Err {
        Err(spec_ren_escape(fs, top)->Err_0)
    } else if spec_ren_github_pre_lang(fs, top) is Err {
        Err(spec_ren_github_pre_lang(fs, top)->Err_0)
    } else if spec_ren_hardbreaks(fs, top) is Err {
        Err(spec_ren_hardbreaks(fs, top)->Err_0)
    } else if spec_ren_unsafe_(fs, top) is Err {
        Err(spec_ren_unsafe_(fs, top)->Err_0)
    } else if spec_ren_width(fs, top) is Err {
        Err(spec_ren_width(fs, top)->Err_0)
    } else if spec_ren_full_info_string(fs, top) is Err {
        Err(spec_ren_full_info_string(fs, top)->Err_0)
    } else if spec_ren_list_style(fs, top) is Err {
        Err(spec_ren_list_style(fs, top)->Err_0)
    } else if spec_ren_sourcepos(fs, top) is Err {
        Err(spec_ren_sourcepos(fs, top)->Err_0)
    } else if spec_ren_escaped_char_spans(fs, top) is Err {
        Err(spec_ren_escaped_char_spans(fs, top)->Err_0)
    } else if spec_ren_ignore_setext(fs, top) is Err {
        Err(spec_ren_ignore_setext(fs, top)->Err_0)
    } else if spec_ren_ignore_empty_links(fs, top) is Err {
        Err(spec_ren_ignore_empty_links(fs, top)->Err_0)
    } else if spec_ren_gfm_quirks(fs, top) is Err {
        Err(spec_ren_gfm_quirks(fs, top)->Err_0)
    } else if spec_ren_prefer_fenced(fs, top) is Err {
        Err(spec_ren_prefer_fenced(fs, top)->Err_0)
    } else if spec_ren_figure_with_caption(fs, top) is Err {
        Err(spec_ren_figure_with_caption(fs, top)->Err_0)
    } else if spec_ren_tasklist_classes(fs, top) is Err {
        Err(spec_ren_tasklist_classes(fs, top)->Err_0)
    } else if spec_ren_ol_width(fs, top) is Err {
        Err(spec_ren_ol_width(fs, top)->Err_0)
    } else if spec_ren_experimental_minimize_commonmark(fs, top) is Err {
        Err(spec_ren_experimental_minimize_commonmark(fs, top)->Err_0)
    } else {
        Ok(
            RenderOptionsV {
                escape: spec_ren_escape(fs, top)->Ok_0,
                github_pre_lang: spec_ren_github_pre_lang(fs, top)->Ok_0,
                hardbreaks: spec_ren_hardbreaks(fs, top)->Ok_0,
                unsafe_: spec_ren_unsafe_(fs, top)->Ok_0,
                width: spec_ren_width(fs, top)->Ok_0,
                full_info_string: spec_ren_full_info_string(fs, top)->Ok_0,
                list_style: spec_ren_list_style(fs, top)->Ok_0,
                sourcepos: spec_ren_sourcepos(fs, top)->Ok_0,
                escaped_char_spans: spec_ren_escaped_char_spans(fs, top)->Ok_0,
                ignore_setext: spec_ren_ignore_setext(fs, top)->Ok_0,
                ignore_empty_links: spec_ren_ignore_empty_links(fs, top)->Ok_0,
                gfm_quirks: spec_ren_gfm_quirks(fs, top)->Ok_0,
                prefer_fenced: spec_ren_prefer_fenced(fs, top)->Ok_0,
                figure_with_caption: spec_ren_figure_with_caption(fs, top)->Ok_0,
                tasklist_classes: spec_ren_tasklist_classes(fs, top)->Ok_0,
                ol_width: spec_ren_ol_width(fs, top)->Ok_0,
                experimental_minimize_commonmark: spec_ren_experimental_minimize_commonmark(fs, top)->Ok_0,
            },
        )
    }
}

#[verifier::rlimit(50)]
fn decode_render(fs: &Vec<(String, HostValue)>, top: &Vec<(String, HostValue)>) -> (r: Result<RenderOptions, DecodeError>)
    ensures
        match r {
            Ok(o) => spec_decode_render(fs@, top@) == Ok::<RenderOptionsV, DecodeErrorV>(o@),
            Err(e) => spec_decode_render(fs@, top@) == Err::<RenderOptionsV, DecodeErrorV>(e@),
        },
{
    proof {
        reveal(spec_decode_render);
    }
    if let Err(e) = check_keys_render(fs) {
        return Err(e);
    }
    let escape = match ren_escape(fs, top) {
        Ok(v) => v,
        Err(e) => return Err(e),
    };
    let github_pre_lang = match ren_github_pre_lang(fs, top) {
        Ok(v) => v,
        Err(e) => return Err(e),
    };
    let hardbreaks = match ren_hardbreaks(fs, top) {
        Ok(v) => v,
        Err(e) => return Err(e),
    };
    let unsafe_ = match ren_unsafe_(fs, top) {
        Ok(v) => v,
        Err(e) => return Err(e),
    };
    let width = match ren_width(fs, top) {
        Ok(v) => v,
        Err(e) => return Err(e),
    };
    let full_info_string = match ren_full_info_string(fs, top) {
        Ok(v) => v,
        Err(e) => return Err(e),
    };
    let list_style = match ren_list_style(fs, top) {
        Ok(v) => v,
        Err(e) => return Err(e),
    };
    let sourcepos = match ren_sourcepos(fs, top) {
        Ok(v) => v,
        Err(e) => return Err(e),
    };
    let escaped_char_spans = match ren_escaped_char_spans(fs, top) {
        Ok(v) => v,
        Err(e) => return Err(e),
    };
    let ignore_setext = match ren_ignore_setext(fs, top) {
        Ok(v) => v,
        Err(e) => return Err(e),
    };
    let ignore_empty_links = match ren_ignore_empty_links(fs, top) {
        Ok(v) => v,
        Err(e) => return Err(e),
    };
    let gfm_quirks = match ren_gfm_quirks(fs, top) {
        Ok(v) => v,
        Err(e) => return Err(e),
    };
    let prefer_fenced = match ren_prefer_fenced(fs, top) {
        Ok(v) => v,
        Err(e) => return Err(e),
    };
    let figure_with_caption = match ren_figure_with_caption(fs, top) {
        Ok(v) => v,
        Err(e) => return Err(e),
    };
    let tasklist_classes = match ren_tasklist_classes(fs, top) {
        Ok(v) => v,
        Err(e) => return Err(e),
    };
    let ol_width = match ren_ol_width(fs, top) {
        Ok(v) => v,
        Err(e) => return Err(e),
    };
    let experimental_minimize_commonmark = match ren_experimental_minimize_commonmark(fs, top) {
        Ok(v) => v,
        Err(e) => return Err(e),
    };
    Ok(
        RenderOptions {
            escape,
            github_pre_lang,
            hardbreaks,
            unsafe_,
            width,
            full_info_string,
            list_style,
            sourcepos,
            escaped_char_spans,
            ignore_setext,
            ignore_empty_links,
            gfm_quirks,
            prefer_fenced,
            figure_with_caption,
            tasklist_classes,
            ol_width,
            experimental_minimize_commonmark,
        },
    )
}

/// A whole top-level options object.
pub open spec fn spec_decode_obj(top: Seq<(String, HostValue)>) -> Result<ConfigV, DecodeErrorV> {
    if first_unknown(top, KeySpace::Top) is Some {
        Err(
            DecodeErrorV {
                path: first_unknown(top, KeySpace::Top)->Some_0,
                kind: DecodeErrorKind::UnknownField,
            },
        )
    } else {
        let es = spec_section(top, "extension"@);
        let ps = spec_section(top, "parse"@);
        let rs = spec_section(top, "render"@);
        if es is Err {
            Err(es->Err_0)
        } else if ps is Err {
            Err(ps->Err_0)
        } else if rs is Err {
            Err(rs->Err_0)
        } else {
            let e = spec_decode_extension(es->Ok_0, top);
            let p = spec_decode_parse(ps->Ok_0, top);
            let rr = spec_decode_render(rs->Ok_0, top);
            if e is Err {
                Err(e->Err_0)
            } else if p is Err {
                Err(p->Err_0)
            } else if rr is Err {
                Err(rr->Err_0)
            } else {
                Ok(ConfigV { extension: e->Ok_0, parse: p->Ok_0, render: rr->Ok_0 })
            }
        }
    }
}

fn decode_obj(top: &Vec<(String, HostValue)>) -> (r: Result<Config, DecodeError>)
    ensures
        match r {
            Ok(o) => spec_decode_obj(top@) == Ok::<ConfigV, DecodeErrorV>(o@),
            Err(e) => spec_decode_obj(top@) == Err::<ConfigV, DecodeErrorV>(e@),
        },
{
    if let Err(e) = check_keys_top(top) {
        return Err(e);
    }
    let empty: Vec<(String, HostValue)> = Vec::new();
    let ext_fs = match section(top, "extension") {
        Ok(Some(v)) => v,
        Ok(None) => &empty,
        Err(e) => return Err(e),
    };
    let par_fs = match section(top, "parse") {
        Ok(Some(v)) => v,
        Ok(None) => &empty,
        Err(e) => return Err(e),
    };
    let ren_fs = match section(top, "render") {
        Ok(Some(v)) => v,
        Ok(None) => &empty,
        Err(e) => return Err(e),
    };
    let extension = match decode_extension(ext_fs, top) {
        Ok(v) => v,
        Err(e) => return Err(e),
    };
    let parse = match decode_parse(par_fs, top) {
        Ok(v) => v,
        Err(e) => return Err(e),
    };
    let render = match decode_render(ren_fs, top) {
        Ok(v) => v,
        Err(e) => return Err(e),
    };
    Ok(Config { extension, parse, render })
}

/// What a host configuration value decodes to: defaults when absent, a
/// field-by-field decode of an object, and a rejection of anything else.
pub open spec fn spec_decode(v: HostValue) -> Result<ConfigV, DecodeErrorV> {
    match v {
        HostValue::Absent => Ok(ConfigV::spec_default()),
        HostValue::Obj(top) => spec_decode_obj(top@),
        _ => Err(DecodeErrorV { path: "options"@, kind: DecodeErrorKind::NotAnObject }),
    }
}

/// Decode a host configuration value into a fully populated options record.
pub fn decode_options(v: &HostValue) -> (r: Result<Config, DecodeError>)
    ensures
        match r {
            Ok(o) => spec_decode(*v) == Ok::<ConfigV, DecodeErrorV>(o@),
            Err(e) => spec_decode(*v) == Err::<ConfigV, DecodeErrorV>(e@),
        },
{
    match v {
        HostValue::Absent => Ok(Config::default()),
        HostValue::Obj(top) => decode_obj(top),
        _ => Err(DecodeError { path: "options".to_owned(), kind: DecodeErrorKind::NotAnObject }),
    }
}


/// Assemble the full extension record from its two decoded halves and the
/// resolved wikilink pair.
fn build_extension(h: &ExtHead, t: &ExtTail, pair: WikiSides) -> (o: ExtensionOptions)
    ensures
        o@ == (ExtensionOptionsV {
            autolink: h@.autolink,
            description_lists: h@.description_lists,
            footnotes: h@.footnotes,
            front_matter_delimiter: h@.front_matter_delimiter,
            header_ids: h@.header_ids,
            strikethrough: h@.strikethrough,
            superscript: h@.superscript,
            table: h@.table,
            tagfilter: h@.tagfilter,
            tasklist: h@.tasklist,
            multiline_block_quotes: h@.multiline_block_quotes,
            alerts: h@.alerts,
            math_dollars: t@.math_dollars,
            math_code: t@.math_code,
            wikilinks_title_after_pipe: pair@.after,
            wikilinks_title_before_pipe: pair@.before,
            underline: t@.underline,
            subscript: t@.subscript,
            spoiler: t@.spoiler,
            greentext: t@.greentext,
            cjk_friendly_emphasis: t@.cjk_friendly_emphasis,
            image_url_rewriter: t@.image_url_rewriter,
            link_url_rewriter: t@.link_url_rewriter,
        }),
{
    ExtensionOptions {
        autolink: h.autolink,
        description_lists: h.description_lists,
        footnotes: h.footnotes,
        front_matter_delimiter: match h.front_matter_delimiter {
            Some(ref s) => Some(s.clone()),
            None => None,
        },
        header_ids: match h.header_ids {
            Some(ref s) => Some(s.clone()),
            None => None,
        },
        strikethrough: h.strikethrough,
        superscript: h.superscript,
        table: h.table,
        tagfilter: h.tagfilter,
        tasklist: h.tasklist,
        multiline_block_quotes: h.multiline_block_quotes,
        alerts: h.alerts,
        math_dollars: t.math_dollars,
        math_code: t.math_code,
        wikilinks_title_after_pipe: pair.after,
        wikilinks_title_before_pipe: pair.before,
        underline: t.underline,
        subscript: t.subscript,
        spoiler: t.spoiler,
        greentext: t.greentext,
        cjk_friendly_emphasis: t.cjk_friendly_emphasis,
        image_url_rewriter: t.image_url_rewriter,
        link_url_rewriter: t.link_url_rewriter,
    }
}

/// Every bullet style decodes back from its own wire name.
pub proof fn lemma_list_style_wire_round_trip(s: ListStyleType)
    ensures
        spec_list_style_of(s.spec_wire_name()) == Some(s),
{
    reveal_strlit("dash");
    reveal_strlit("plus");
    reveal_strlit("star");
    assert(eq_ignore_case(s.spec_wire_name(), s.spec_wire_name()));
    match s {
        ListStyleType::Dash => {},
        ListStyleType::Plus => {
            assert(!eq_ignore_case("plus"@, "dash"@)) by {
                assert(crate::host::lower32("plus"@[0]) != crate::host::lower32("dash"@[0]));
            }
        },
        ListStyleType::Star => {
            assert(!eq_ignore_case("star"@, "dash"@)) by {
                assert(crate::host::lower32("star"@[0]) != crate::host::lower32("dash"@[0]));
            }
            assert(!eq_ignore_case("star"@, "plus"@)) by {
                assert(crate::host::lower32("star"@[0]) != crate::host::lower32("plus"@[0]));
            }
        },
    }
}

} // verus!
