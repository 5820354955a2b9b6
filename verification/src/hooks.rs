//! The rules by which host rendering hooks contribute to the output.
//!
//! A hook is a host callable; the boundary invokes it and hands the outcome
//! back as a [`HookOutcome`]. What that outcome contributes — a rendered
//! fragment, a rewritten URL, a resolved reference — is decided here, by
//! verified functions. A hook that throws, or returns a value of the wrong
//! shape, contributes nothing: rendering proceeds with the fragment elided,
//! the URL unchanged, or the reference left unresolved.

use vstd::prelude::*;
use vstd::string::StringExecFns;

use crate::host::{HostValue, get, lookup};

verus! {

/// What came back from invoking a host callable.
#[derive(Debug)]
pub enum HookOutcome {
    /// The callable threw.
    Threw,
    /// The callable returned this value.
    Returned(HostValue),
}

/// A resolved link reference: destination and title.
#[derive(Debug, Clone)]
pub struct ResolvedReference {
    pub url: String,
    pub title: String,
}

/// Mathematical view of [`ResolvedReference`].
pub ghost struct ResolvedReferenceV {
    pub url: Seq<char>,
    pub title: Seq<char>,
}

impl View for ResolvedReference {
    type V = ResolvedReferenceV;

    open spec fn view(&self) -> ResolvedReferenceV {
        ResolvedReferenceV { url: self.url@, title: self.title@ }
    }
}

/// The fragment a rendering hook writes: its returned string, and nothing
/// in every other case.
pub open spec fn spec_hook_fragment(outcome: &HookOutcome) -> Option<Seq<char>> {
    match outcome {
        HookOutcome::Returned(HostValue::Str(s)) => Some(s@),
        _ => None,
    }
}

/// What a rendering hook (highlighter, tag writer, heading writer)
/// contributes to the output: exactly its returned string, nothing when it
/// threw or returned anything else.
pub fn hook_fragment(outcome: &HookOutcome) -> (r: Option<String>)
    ensures
        match r {
            Some(s) => spec_hook_fragment(outcome) == Some(s@),
            None => spec_hook_fragment(outcome) is None,
        },
{
    match outcome {
        HookOutcome::Returned(HostValue::Str(s)) => Some(s.clone()),
        _ => None,
    }
}

/// The URL a rewriter hook leaves behind: its returned string, else the
/// original unchanged.
pub open spec fn spec_rewritten_url(original: Seq<char>, outcome: &HookOutcome) -> Seq<char> {
    match spec_hook_fragment(outcome) {
        Some(s) => s,
        None => original,
    }
}

/// What a URL rewriter hook leaves as the destination: its returned string,
/// or the original URL unchanged when it threw or returned a non-string.
pub fn rewritten_url(original: &str, outcome: &HookOutcome) -> (r: String)
    ensures
        r@ == spec_rewritten_url(original@, outcome),
{
    match hook_fragment(outcome) {
        Some(s) => s,
        None => original.to_owned(),
    }
}

/// A string field of a returned object, with the empty string for a
/// missing or non-string field.
pub open spec fn spec_string_or_empty(
    fields: Seq<(String, HostValue)>,
    key: Seq<char>,
) -> Seq<char> {
    match lookup(fields, key) {
        Some(HostValue::Str(s)) => s@,
        _ => Seq::<char>::empty(),
    }
}

fn string_or_empty(fields: &Vec<(String, HostValue)>, key: &str) -> (r: String)
    ensures
        r@ == spec_string_or_empty(fields@, key@),
{
    match get(fields, key) {
        Some(HostValue::Str(s)) => s.clone(),
        _ => String::new(),
    }
}

/// The reference a resolver hook yields: a returned object is coerced to a
/// resolved reference, with missing string fields defaulting to empty;
/// everything else leaves the link unresolved.
pub open spec fn spec_resolved_reference(outcome: &HookOutcome) -> Option<ResolvedReferenceV> {
    match outcome {
        HookOutcome::Returned(HostValue::Obj(fields)) => Some(
            ResolvedReferenceV {
                url: spec_string_or_empty(fields@, "url"@),
                title: spec_string_or_empty(fields@, "title"@),
            },
        ),
        _ => None,
    }
}

/// What a broken-link resolver hook yields: the coerced reference from a
/// returned object, or nothing — the link stays unresolved — when the hook
/// threw or returned anything but an object.
pub fn resolved_reference(outcome: &HookOutcome) -> (r: Option<ResolvedReference>)
    ensures
        match r {
            Some(res) => spec_resolved_reference(outcome) == Some(res@),
            None => spec_resolved_reference(outcome) is None,
        },
{
    match outcome {
        HookOutcome::Returned(HostValue::Obj(fields)) => Some(
            ResolvedReference {
                url: string_or_empty(fields, "url"),
                title: string_or_empty(fields, "title"),
            },
        ),
        _ => None,
    }
}

/// A hook that throws never derails rendering: the fragment is elided, the
/// URL is preserved unchanged, and the reference stays unresolved.
pub proof fn lemma_thrown_hook_elided(original: Seq<char>)
    ensures
        spec_hook_fragment(&HookOutcome::Threw) is None,
        spec_rewritten_url(original, &HookOutcome::Threw) == original,
        spec_resolved_reference(&HookOutcome::Threw) is None,
{
}

/// Heading metadata handed to a heading hook: level and flat text content.
#[derive(Debug, Clone)]
pub struct HeadingMeta {
    pub level: u8,
    pub content: String,
}

impl HeadingMeta {
    /// A heading level is between 1 and 6.
    pub open spec fn wf(&self) -> bool {
        1 <= self.level <= 6
    }

    /// The wire shape of heading metadata: an object with the level and the
    /// content.
    pub fn wire_value(&self) -> (r: HostValue)
        ensures
            r matches HostValue::Obj(fields) && {
                &&& fields@.len() == 2
                &&& fields@[0].0@ == "level"@
                &&& fields@[0].1 == HostValue::UInt(self.level as u64)
                &&& fields@[1].0@ == "content"@
                &&& fields@[1].1 matches HostValue::Str(s) && s@ == self.content@
            },
    {
        let mut fields: Vec<(String, HostValue)> = Vec::new();
        fields.push(("level".to_owned(), HostValue::UInt(self.level as u64)));
        fields.push(("content".to_owned(), HostValue::Str(self.content.clone())));
        HostValue::Obj(fields)
    }
}

/// A node's place in the source text: 1-based line and column of its start
/// and end.
#[derive(Debug, Clone, Copy, PartialEq, Eq, Structural)]
pub struct Sourcepos {
    pub start_line: u64,
    pub start_column: u64,
    pub end_line: u64,
    pub end_column: u64,
}

impl Sourcepos {
    /// Lines and columns are 1-based.
    pub open spec fn wf(&self) -> bool {
        self.start_line >= 1 && self.start_column >= 1 && self.end_line >= 1 && self.end_column
            >= 1
    }
}

/// The wire shape of a broken link reference: the normalized label and the
/// original label text.
pub fn broken_link_wire_value(normalized: &str, original: &str) -> (r: HostValue)
    ensures
        r matches HostValue::Obj(fields) && {
            &&& fields@.len() == 2
            &&& fields@[0].0@ == "normalized"@
            &&& fields@[0].1 matches HostValue::Str(s) && s@ == normalized@
            &&& fields@[1].0@ == "original"@
            &&& fields@[1].1 matches HostValue::Str(s) && s@ == original@
        },
{
    let mut fields: Vec<(String, HostValue)> = Vec::new();
    fields.push(("normalized".to_owned(), HostValue::Str(normalized.to_owned())));
    fields.push(("original".to_owned(), HostValue::Str(original.to_owned())));
    HostValue::Obj(fields)
}

} // verus!
