//! The checks that the create form applies to its JSON inputs.

use vstd::prelude::*;
use crate::text::{chars_of, owned};

verus! {

/// Whether `c` has the Unicode `White_Space` property, the test that
/// `char::is_whitespace` and `str::trim` apply: tab to carriage return, space,
/// next line, no-break space, ogham space mark, en quad to hair space, line
/// and paragraph separator, narrow no-break space, medium mathematical space
/// and ideographic space.
pub open spec fn is_white_space(c: char) -> bool {
    let u = c as u32;
    ||| 0x09 <= u <= 0x0D
    ||| u == 0x20
    ||| u == 0x85
    ||| u == 0xA0
    ||| u == 0x1680
    ||| 0x2000 <= u <= 0x200A
    ||| u == 0x2028
    ||| u == 0x2029
    ||| u == 0x202F
    ||| u == 0x205F
    ||| u == 0x3000
}

/// Whether `serde_json::from_str` reads `text` as one JSON value.
pub uninterp spec fn is_json_text(text: Seq<char>) -> bool;

/// Whether `c` is white space.
pub fn char_is_white_space(c: char) -> (b: bool)
    ensures
        b == is_white_space(c),
{
    let u: u32 = c as u32;
    (0x09 <= u && u <= 0x0D) || u == 0x20 || u == 0x85 || u == 0xA0 || u == 0x1680
        || (0x2000 <= u && u <= 0x200A) || u == 0x2028 || u == 0x2029 || u == 0x202F
        || u == 0x205F || u == 0x3000
}

/// `serde_json::from_str::<serde_json::Value>`, reduced to whether it
/// succeeds. The parse depends on the text alone; which texts it accepts
/// (the JSON grammar, with serde_json's nesting limit) is left to the name
/// `is_json_text`.
#[verifier::external_body]
fn parses_as_json(text: &str) -> (ok: bool)
    ensures
        ok == is_json_text(text@),
{
    serde_json::from_str::<serde_json::Value>(text).is_ok()
}

/// A text that is empty or made of white space only, the texts that
/// `str::trim` turns into the empty string.
pub open spec fn is_blank(text: Seq<char>) -> bool {
    forall|i: int| 0 <= i < text.len() ==> is_white_space(#[trigger] text[i])
}

/// The JSON text that the form sends for a field: the field's own text when
/// it parses, `{}` when the field is blank, and nothing when it is neither.
pub open spec fn json_field_text(text: Seq<char>, parses: bool) -> Option<Seq<char>> {
    if parses {
        Some(text)
    } else if is_blank(text) {
        Some("{}"@)
    } else {
        None
    }
}

/// Whether `text` is empty or white space only.
pub fn text_is_blank(text: &str) -> (b: bool)
    ensures
        b == is_blank(text@),
{
    let v = chars_of(text);
    let mut i: usize = 0;
    while i < v.len()
        invariant
            i <= v.len(),
            v@ == text@,
            forall|j: int| 0 <= j < i ==> is_white_space(#[trigger] v@[j]),
        decreases v.len() - i,
    {
        if !char_is_white_space(v[i]) {
            return false;
        }
        i = i + 1;
    }
    true
}

/// Chooses the JSON text that the form sends for a field, given whether the
/// field's text parses as JSON.
pub fn choose_json_text(text: &str, parses: bool) -> (r: Option<String>)
    ensures
        r matches Some(t) ==> json_field_text(text@, parses) == Some(t@),
        r is None ==> json_field_text(text@, parses) is None,
{
    if parses {
        Some(owned(text))
    } else if text_is_blank(text) {
        Some(owned("{}"))
    } else {
        None
    }
}

/// The JSON text that the form sends for a field whose text is `text`.
pub fn json_text_for(text: &str) -> (r: Option<String>)
    ensures
        r matches Some(t) ==> json_field_text(text@, is_json_text(text@)) == Some(t@),
        r is None ==> json_field_text(text@, is_json_text(text@)) is None,
{
    let parses = parses_as_json(text);
    choose_json_text(text, parses)
}

} // verus!
