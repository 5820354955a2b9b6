//! A plain model of the values the host hands across the boundary.
//!
//! The host runtime deals in dynamically typed values; the adapter only ever
//! inspects a handful of shapes: absent values, booleans, non-negative
//! integers, strings, plain objects, and callables. [`HostValue`] captures
//! exactly those shapes, with everything else collapsed into
//! [`HostValue::Other`]. A callable is carried as an opaque handle; invoking
//! it is the host boundary's business, never this crate's.

use vstd::prelude::*;
use vstd::string::StrSliceExecFns;

verus! {

/// A host-supplied value, as far as the adapter can see into it.
#[derive(Debug)]
pub enum HostValue {
    /// The host's `null` or `undefined`, or a missing value.
    Absent,
    Bool(bool),
    /// A non-negative integer number.
    UInt(u64),
    Str(String),
    /// A plain object: named fields in insertion order.
    Obj(Vec<(String, HostValue)>),
    /// A host function, by opaque handle.
    Callable(u64),
    /// Any other host value (negative or fractional number, array, ...).
    Other,
}

/// The first binding of `key` among `fields`, if any.
pub open spec fn lookup(fields: Seq<(String, HostValue)>, key: Seq<char>) -> Option<HostValue>
    decreases fields.len(),
{
    if fields.len() == 0 {
        None
    } else if fields[0].0@ == key {
        Some(fields[0].1)
    } else {
        lookup(fields.drop_first(), key)
    }
}

/// String comparison with a contract over the views.
pub fn str_eq(a: &str, b: &str) -> (r: bool)
    ensures
        r == (a@ == b@),
{
    let owned_a: String = a.to_owned();
    let owned_b: String = b.to_owned();
    owned_a == owned_b
}

/// A character's codepoint with an ASCII capital folded to its small form.
pub open spec fn lower32(c: char) -> u32 {
    if 65 <= c as u32 && c as u32 <= 90 {
        (c as u32 + 32) as u32
    } else {
        c as u32
    }
}

/// Character-wise equality up to ASCII case.
pub open spec fn eq_ignore_case(a: Seq<char>, b: Seq<char>) -> bool {
    a.len() == b.len() && (forall|i: int| 0 <= i < a.len() ==> lower32(a[i]) == lower32(b[i]))
}

fn char_lower(c: char) -> (u: u32)
    ensures
        u == lower32(c),
{
    let x: u32 = c as u32;
    if 65 <= x && x <= 90 {
        x + 32
    } else {
        x
    }
}

/// String comparison up to ASCII case, with a contract over the views.
pub fn str_eq_ignore_case(a: &str, b: &str) -> (r: bool)
    ensures
        r == eq_ignore_case(a@, b@),
{
    let la: usize = a.unicode_len();
    let lb: usize = b.unicode_len();
    if la != lb {
        return false;
    }
    let mut i: usize = 0;
    while i < la
        invariant
            la == a@.len(),
            la == b@.len(),
            i <= la,
            forall|j: int| 0 <= j < i ==> lower32(a@[j]) == lower32(b@[j]),
        decreases la - i,
    {
        if char_lower(a.get_char(i)) != char_lower(b.get_char(i)) {
            return false;
        }
        i = i + 1;
    }
    true
}

/// Look `key` up among `fields`, first binding wins.
pub fn get<'a>(fields: &'a Vec<(String, HostValue)>, key: &str) -> (r: Option<&'a HostValue>)
    ensures
        match r {
            Some(v) => lookup(fields@, key@) == Some(*v),
            None => lookup(fields@, key@) is None,
        },
{
    let mut i: usize = 0;
    assert(fields@.skip(0) =~= fields@);
    while i < fields.len()
        invariant
            i <= fields@.len(),
            lookup(fields@, key@) == lookup(fields@.skip(i as int), key@),
        decreases fields@.len() - i,
    {
        assert(fields@.skip(i as int)[0] == fields@[i as int]);
        if str_eq(fields[i].0.as_str(), key) {
            return Some(&fields[i].1);
        }
        assert(fields@.skip(i as int).drop_first() =~= fields@.skip(i as int + 1));
        i = i + 1;
    }
    None
}

} // verus!
