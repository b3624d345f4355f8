//! The closed set of electrical quantity kinds and the parsing of their
//! one-letter text tags.

use vstd::prelude::*;

verus! {

/// One of the four electrical quantities related by Ohm's law.
#[derive(Clone, Copy, Debug, PartialEq, Eq, Structural)]
pub enum QuantityKind {
    Power,
    Voltage,
    Current,
    Resistance,
}

/// The kind named by a tag, if any: exactly the one-character strings
/// `P`, `V`, `I`, `R`, in either case, name a kind.
pub open spec fn kind_of_tag(s: Seq<char>) -> Option<QuantityKind> {
    if s.len() == 1 {
        if s[0] == 'P' || s[0] == 'p' {
            Some(QuantityKind::Power)
        } else if s[0] == 'V' || s[0] == 'v' {
            Some(QuantityKind::Voltage)
        } else if s[0] == 'I' || s[0] == 'i' {
            Some(QuantityKind::Current)
        } else if s[0] == 'R' || s[0] == 'r' {
            Some(QuantityKind::Resistance)
        } else {
            None
        }
    } else {
        None
    }
}

/// Parse a kind tag, case-insensitively: `Some` exactly on the eight
/// strings `"P"`, `"p"`, `"V"`, `"v"`, `"I"`, `"i"`, `"R"`, `"r"`.
pub fn parse_kind(text: &str) -> (r: Option<QuantityKind>)
    ensures
        r == kind_of_tag(text@),
{
    let n = text.unicode_len();
    if n != 1 {
        return None;
    }
    let c = text.get_char(0);
    if c == 'P' || c == 'p' {
        Some(QuantityKind::Power)
    } else if c == 'V' || c == 'v' {
        Some(QuantityKind::Voltage)
    } else if c == 'I' || c == 'i' {
        Some(QuantityKind::Current)
    } else if c == 'R' || c == 'r' {
        Some(QuantityKind::Resistance)
    } else {
        None
    }
}

/// The upper-case form of a tag character, for the four letters that can
/// name a kind; any other character is left as it is.
pub open spec fn tag_char_upper(c: char) -> char {
    if c == 'p' {
        'P'
    } else if c == 'v' {
        'V'
    } else if c == 'i' {
        'I'
    } else if c == 'r' {
        'R'
    } else {
        c
    }
}

/// A tag with every character upper-cased by `tag_char_upper`.
pub open spec fn tag_upper(s: Seq<char>) -> Seq<char> {
    s.map(|i: int, c: char| tag_char_upper(c))
}

/// Kind tags are case-insensitive: upper-casing a tag never changes which
/// kind it names, nor whether it names one.
pub proof fn lemma_kind_tag_case_insensitive(s: Seq<char>)
    ensures
        kind_of_tag(tag_upper(s)) == kind_of_tag(s),
{
    assert(tag_upper(s).len() == s.len());
    if s.len() == 1 {
        assert(tag_upper(s)[0] == tag_char_upper(s[0]));
    }
}

} // verus!
