//! The configuration record handed to the engine: a three-part options
//! struct with well-defined defaults, and the two small wire enumerations.

use vstd::prelude::*;

verus! {

/// The bullet character used when serializing unordered lists: `-`, `+` or `*`.
#[derive(Clone, Copy, PartialEq, Eq, Structural, Debug)]
pub enum ListStyleType {
    Dash,
    Plus,
    Star,
}

impl ListStyleType {
    /// The codepoint of the bullet character this style stands for.
    pub open spec fn spec_codepoint(self) -> u8 {
        match self {
            ListStyleType::Dash => 45,
            ListStyleType::Plus => 43,
            ListStyleType::Star => 42,
        }
    }

    pub fn codepoint(self) -> (c: u8)
        ensures
            c == self.spec_codepoint(),
    {
        match self {
            ListStyleType::Dash => 45,
            ListStyleType::Plus => 43,
            ListStyleType::Star => 42,
        }
    }

    /// Which style, if any, a bullet codepoint decodes to.
    pub open spec fn spec_from_codepoint(c: u8) -> Option<ListStyleType> {
        if c == 45 {
            Some(ListStyleType::Dash)
        } else if c == 43 {
            Some(ListStyleType::Plus)
        } else if c == 42 {
            Some(ListStyleType::Star)
        } else {
            None
        }
    }


    /// The wire name of this style.
    pub open spec fn spec_wire_name(self) -> Seq<char> {
        match self {
            ListStyleType::Dash => "dash"@,
            ListStyleType::Plus => "plus"@,
            ListStyleType::Star => "star"@,
        }
    }

    pub fn wire_name(self) -> (r: &'static str)
        ensures
            r@ == self.spec_wire_name(),
    {
        match self {
            ListStyleType::Dash => "dash",
            ListStyleType::Plus => "plus",
            ListStyleType::Star => "star",
        }
    }

    pub fn from_codepoint(c: u8) -> (r: Option<ListStyleType>)
        ensures
            r == Self::spec_from_codepoint(c),
    {
        if c == 45 {
            Some(ListStyleType::Dash)
        } else if c == 43 {
            Some(ListStyleType::Plus)
        } else if c == 42 {
            Some(ListStyleType::Star)
        } else {
            None
        }
    }
}

impl Default for ListStyleType {
    fn default() -> (r: Self)
        ensures
            r == ListStyleType::Dash,
    {
        ListStyleType::Dash
    }
}

/// Every bullet style decodes back from its own codepoint.
pub proof fn lemma_list_style_codepoint_round_trip(s: ListStyleType)
    ensures
        ListStyleType::spec_from_codepoint(s.spec_codepoint()) == Some(s),
{
}

/// Which side of the pipe carries the title in a wikilink.
#[derive(Clone, Copy, PartialEq, Eq, Structural, Debug)]
pub enum WikiLinksTitle {
    Before,
    After,
}

/// Switches selecting the engine's syntax extensions. Host rendering hooks
/// (the URL rewriters) are carried as opaque callable handles; only the
/// host boundary can invoke them.
#[derive(Debug, Clone)]
pub struct ExtensionOptions {
    pub autolink: bool,
    pub description_lists: bool,
    pub footnotes: bool,
    pub front_matter_delimiter: Option<String>,
    pub header_ids: Option<String>,
    pub strikethrough: bool,
    pub superscript: bool,
    pub table: bool,
    pub tagfilter: bool,
    pub tasklist: bool,
    pub multiline_block_quotes: bool,
    pub alerts: bool,
    pub math_dollars: bool,
    pub math_code: bool,
    pub wikilinks_title_after_pipe: bool,
    pub wikilinks_title_before_pipe: bool,
    pub underline: bool,
    pub subscript: bool,
    pub spoiler: bool,
    pub greentext: bool,
    pub cjk_friendly_emphasis: bool,
    pub image_url_rewriter: Option<u64>,
    pub link_url_rewriter: Option<u64>,
}

/// Mathematical view of [`ExtensionOptions`].
pub ghost struct ExtensionOptionsV {
    pub autolink: bool,
    pub description_lists: bool,
    pub footnotes: bool,
    pub front_matter_delimiter: Option<Seq<char>>,
    pub header_ids: Option<Seq<char>>,
    pub strikethrough: bool,
    pub superscript: bool,
    pub table: bool,
    pub tagfilter: bool,
    pub tasklist: bool,
    pub multiline_block_quotes: bool,
    pub alerts: bool,
    pub math_dollars: bool,
    pub math_code: bool,
    pub wikilinks_title_after_pipe: bool,
    pub wikilinks_title_before_pipe: bool,
    pub underline: bool,
    pub subscript: bool,
    pub spoiler: bool,
    pub greentext: bool,
    pub cjk_friendly_emphasis: bool,
    pub image_url_rewriter: Option<u64>,
    pub link_url_rewriter: Option<u64>,
}

impl View for ExtensionOptions {
    type V = ExtensionOptionsV;

    open spec fn view(&self) -> ExtensionOptionsV {
        ExtensionOptionsV {
            autolink: self.autolink,
            description_lists: self.description_lists,
            footnotes: self.footnotes,
            front_matter_delimiter: match self.front_matter_delimiter {
                Some(s) => Some(s@),
                None => None,
            },
            header_ids: match self.header_ids {
                Some(s) => Some(s@),
                None => None,
            },
            strikethrough: self.strikethrough,
            superscript: self.superscript,
            table: self.table,
            tagfilter: self.tagfilter,
            tasklist: self.tasklist,
            multiline_block_quotes: self.multiline_block_quotes,
            alerts: self.alerts,
            math_dollars: self.math_dollars,
            math_code: self.math_code,
            wikilinks_title_after_pipe: self.wikilinks_title_after_pipe,
            wikilinks_title_before_pipe: self.wikilinks_title_before_pipe,
            underline: self.underline,
            subscript: self.subscript,
            spoiler: self.spoiler,
            greentext: self.greentext,
            cjk_friendly_emphasis: self.cjk_friendly_emphasis,
            image_url_rewriter: self.image_url_rewriter,
            link_url_rewriter: self.link_url_rewriter,
        }
    }
}

impl ExtensionOptionsV {
    /// The defaults of the extension section.
    pub open spec fn spec_default() -> ExtensionOptionsV {
        ExtensionOptionsV {
            autolink: true,
            description_lists: true,
            footnotes: true,
            front_matter_delimiter: None,
            header_ids: None,
            strikethrough: true,
            superscript: true,
            table: true,
            tagfilter: true,
            tasklist: true,
            multiline_block_quotes: false,
            alerts: false,
            math_dollars: false,
            math_code: false,
            wikilinks_title_after_pipe: false,
            wikilinks_title_before_pipe: false,
            underline: false,
            subscript: false,
            spoiler: false,
            greentext: false,
            cjk_friendly_emphasis: false,
            image_url_rewriter: None,
            link_url_rewriter: None,
        }
    }

    /// At most one wikilink title side is selected.
    pub open spec fn wf(self) -> bool {
        !(self.wikilinks_title_after_pipe && self.wikilinks_title_before_pipe)
    }
}

impl Default for ExtensionOptions {
    fn default() -> (r: Self)
        ensures
            r@ == ExtensionOptionsV::spec_default(),
    {
        ExtensionOptions {
            autolink: true,
            description_lists: true,
            footnotes: true,
            front_matter_delimiter: None,
            header_ids: None,
            strikethrough: true,
            superscript: true,
            table: true,
            tagfilter: true,
            tasklist: true,
            multiline_block_quotes: false,
            alerts: false,
            math_dollars: false,
            math_code: false,
            wikilinks_title_after_pipe: false,
            wikilinks_title_before_pipe: false,
            underline: false,
            subscript: false,
            spoiler: false,
            greentext: false,
            cjk_friendly_emphasis: false,
            image_url_rewriter: None,
            link_url_rewriter: None,
        }
    }
}

/// Switches read while parsing source text. The broken-link callback is an
/// opaque host callable handle.
#[derive(Debug, Clone)]
pub struct ParseOptions {
    pub default_info_string: Option<String>,
    pub smart: bool,
    pub relaxed_tasklist_matching: bool,
    pub relaxed_autolinks: bool,
    pub broken_link_callback: Option<u64>,
}

/// Mathematical view of [`ParseOptions`].
pub ghost struct ParseOptionsV {
    pub default_info_string: Option<Seq<char>>,
    pub smart: bool,
    pub relaxed_tasklist_matching: bool,
    pub relaxed_autolinks: bool,
    pub broken_link_callback: Option<u64>,
}

impl View for ParseOptions {
    type V = ParseOptionsV;

    open spec fn view(&self) -> ParseOptionsV {
        ParseOptionsV {
            default_info_string: match self.default_info_string {
                Some(s) => Some(s@),
                None => None,
            },
            smart: self.smart,
            relaxed_tasklist_matching: self.relaxed_tasklist_matching,
            relaxed_autolinks: self.relaxed_autolinks,
            broken_link_callback: self.broken_link_callback,
        }
    }
}

impl ParseOptionsV {
    /// The defaults of the parse section.
    pub open spec fn spec_default() -> ParseOptionsV {
        ParseOptionsV {
            default_info_string: None,
            smart: true,
            relaxed_tasklist_matching: false,
            relaxed_autolinks: false,
            broken_link_callback: None,
        }
    }
}

impl Default for ParseOptions {
    fn default() -> (r: Self)
        ensures
            r@ == ParseOptionsV::spec_default(),
    {
        ParseOptions {
            default_info_string: None,
            smart: true,
            relaxed_tasklist_matching: false,
            relaxed_autolinks: false,
            broken_link_callback: None,
        }
    }
}

/// Switches read while formatting output.
#[derive(Debug, Clone)]
pub struct RenderOptions {
    pub escape: bool,
    pub github_pre_lang: bool,
    pub hardbreaks: bool,
    pub unsafe_: bool,
    pub width: u64,
    pub full_info_string: bool,
    pub list_style: ListStyleType,
    pub sourcepos: bool,
    pub escaped_char_spans: bool,
    pub ignore_setext: bool,
    pub ignore_empty_links: bool,
    pub gfm_quirks: bool,
    pub prefer_fenced: bool,
    pub figure_with_caption: bool,
    pub tasklist_classes: bool,
    pub ol_width: u64,
    pub experimental_minimize_commonmark: bool,
}

/// Mathematical view of [`RenderOptions`].
pub ghost struct RenderOptionsV {
    pub escape: bool,
    pub github_pre_lang: bool,
    pub hardbreaks: bool,
    pub unsafe_: bool,
    pub width: u64,
    pub full_info_string: bool,
    pub list_style: ListStyleType,
    pub sourcepos: bool,
    pub escaped_char_spans: bool,
    pub ignore_setext: bool,
    pub ignore_empty_links: bool,
    pub gfm_quirks: bool,
    pub prefer_fenced: bool,
    pub figure_with_caption: bool,
    pub tasklist_classes: bool,
    pub ol_width: u64,
    pub experimental_minimize_commonmark: bool,
}

impl View for RenderOptions {
    type V = RenderOptionsV;

    open spec fn view(&self) -> RenderOptionsV {
        RenderOptionsV {
            escape: self.escape,
            github_pre_lang: self.github_pre_lang,
            hardbreaks: self.hardbreaks,
            unsafe_: self.unsafe_,
            width: self.width,
            full_info_string: self.full_info_string,
            list_style: self.list_style,
            sourcepos: self.sourcepos,
            escaped_char_spans: self.escaped_char_spans,
            ignore_setext: self.ignore_setext,
            ignore_empty_links: self.ignore_empty_links,
            gfm_quirks: self.gfm_quirks,
            prefer_fenced: self.prefer_fenced,
            figure_with_caption: self.figure_with_caption,
            tasklist_classes: self.tasklist_classes,
            ol_width: self.ol_width,
            experimental_minimize_commonmark: self.experimental_minimize_commonmark,
        }
    }
}

impl RenderOptionsV {
    /// The defaults of the render section.
    pub open spec fn spec_default() -> RenderOptionsV {
        RenderOptionsV {
            escape: true,
            github_pre_lang: true,
            hardbreaks: false,
            unsafe_: false,
            width: 80,
            full_info_string: false,
            list_style: ListStyleType::Dash,
            sourcepos: false,
            escaped_char_spans: false,
            ignore_setext: false,
            ignore_empty_links: false,
            gfm_quirks: false,
            prefer_fenced: false,
            figure_with_caption: false,
            tasklist_classes: false,
            ol_width: 0,
            experimental_minimize_commonmark: false,
        }
    }
}

impl Default for RenderOptions {
    fn default() -> (r: Self)
        ensures
            r@ == RenderOptionsV::spec_default(),
    {
        RenderOptions {
            escape: true,
            github_pre_lang: true,
            hardbreaks: false,
            unsafe_: false,
            width: 80,
            full_info_string: false,
            list_style: ListStyleType::Dash,
            sourcepos: false,
            escaped_char_spans: false,
            ignore_setext: false,
            ignore_empty_links: false,
            gfm_quirks: false,
            prefer_fenced: false,
            figure_with_caption: false,
            tasklist_classes: false,
            ol_width: 0,
            experimental_minimize_commonmark: false,
        }
    }
}

/// The full configuration record: extension, parse and render sections.
#[derive(Debug, Clone)]
pub struct Config {
    pub extension: ExtensionOptions,
    pub parse: ParseOptions,
    pub render: RenderOptions,
}

/// Mathematical view of [`Config`].
pub ghost struct ConfigV {
    pub extension: ExtensionOptionsV,
    pub parse: ParseOptionsV,
    pub render: RenderOptionsV,
}

impl View for Config {
    type V = ConfigV;

    open spec fn view(&self) -> ConfigV {
        ConfigV { extension: self.extension@, parse: self.parse@, render: self.render@ }
    }
}

impl ConfigV {
    /// The defaults of the whole record.
    pub open spec fn spec_default() -> ConfigV {
        ConfigV {
            extension: ExtensionOptionsV::spec_default(),
            parse: ParseOptionsV::spec_default(),
            render: RenderOptionsV::spec_default(),
        }
    }

    /// Well-formedness of the whole record.
    pub open spec fn wf(self) -> bool {
        self.extension.wf()
    }
}

impl Default for Config {
    fn default() -> (r: Self)
        ensures
            r@ == ConfigV::spec_default(),
    {
        Config {
            extension: ExtensionOptions::default(),
            parse: ParseOptions::default(),
            render: RenderOptions::default(),
        }
    }
}

} // verus!
