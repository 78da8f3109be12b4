//! Pretty rendering of structured payloads, over `serde_json` behind two
//! trusted calls: parsing a payload into a value, and rendering a value as
//! indented text.
//!
//! The crate's own part — cutting the rendered text into buffer lines and the
//! idempotence of re-rendering — is verified against those two contracts.

use vstd::prelude::*;

use crate::strutil::join_lines;
use crate::strutil::lemma_join_of_split;
use crate::strutil::line_split;
use crate::strutil::split_lines;

verus! {

#[verifier::external_type_specification]
#[verifier::external_body]
pub struct ExValue(serde_json::Value);

/// The value a payload text parses to, or nothing when the text is not
/// well-formed. Parsing is a function of the text alone.
pub uninterp spec fn json_parse(s: Seq<char>) -> Option<serde_json::Value>;

/// The value nests within the parser's recursion-depth limit: the bound
/// `from_str` guarantees of every value it hands out, and the bound under
/// which a value's own rendering parses back. A value nested deeper could be
/// rendered but never re-parsed.
pub uninterp spec fn json_within_depth(v: serde_json::Value) -> bool;

/// The indented rendering of a value. It takes the declared value type as
/// its argument because the rendering reads the parsed structure alone.
pub uninterp spec fn json_pretty(v: serde_json::Value) -> Seq<char>;

/// Relies on `serde_json::from_str::<Value>`: built without `preserve_order`
/// and with the correctly-rounding `float_roundtrip` parser, the parse of a
/// given text always yields the same value; a text that is not well-formed
/// JSON — nesting past the parser's recursion limit included — yields the
/// error arm. Every value the parser does hand out therefore nests within
/// its own depth limit.
#[verifier::external_body]
fn parse_json(s: &str) -> (r: Option<serde_json::Value>)
    ensures
        r == json_parse(s@),
        r matches Some(v) ==> json_within_depth(v),
{
    match serde_json::from_str::<serde_json::Value>(s) {
        Ok(v) => Some(v),
        Err(_) => None,
    }
}

/// Relies on `serde_json::to_string_pretty` on a `Value`: rendering a value
/// into a growable string cannot fail (a `Value` has only string map keys
/// and its serializer never errors, so the `Result` is always the success
/// arm), the text depends on the value alone, and — the crate's round-trip
/// promise — parsing the rendered text yields an equal value again. The
/// round trip holds only of values within the parser's own depth limit,
/// which the `requires` demands and which the parsing wrapper establishes of
/// everything it hands out, and it needs the `float_roundtrip` parser
/// feature, which this crate enables: the default float parser does not
/// invert the shortest float renderings this call emits.
#[verifier::external_body]
fn pretty_json(v: &serde_json::Value) -> (r: String)
    requires
        json_within_depth(*v),
    ensures
        r@ == json_pretty(*v),
        json_parse(r@) == Some(*v),
{
    serde_json::to_string_pretty(v).unwrap()
}

/// The lines a well-formed payload renders to: its parsed value, re-rendered
/// as indented text, one buffer line per text line.
pub open spec fn spec_render_pretty(s: Seq<char>) -> Option<Seq<Seq<char>>> {
    match json_parse(s) {
        Some(v) => Some(line_split(json_pretty(v))),
        None => None,
    }
}

/// Renders a structured payload as indented lines; a payload that is not
/// well-formed JSON renders to nothing, and the caller falls back to the raw
/// text.
///
/// Rendering is idempotent: joining the returned lines back into one text
/// and rendering that text again returns exactly the same lines. This is the
/// last `ensures` clause, proved from the round-trip promise of the
/// rendering call.
pub fn render_pretty(payload: &str) -> (r: Option<Vec<String>>)
    ensures
        r is Some <==> json_parse(payload@) is Some,
        r matches Some(lines) ==> Some(lines.deep_view()) == spec_render_pretty(payload@),
        r matches Some(lines) ==> spec_render_pretty(join_lines(lines.deep_view())) == Some(
            lines.deep_view(),
        ),
{
    match parse_json(payload) {
        None => None,
        Some(v) => {
            let text = pretty_json(&v);
            let lines = split_lines(text.as_str());
            proof {
                lemma_join_of_split(text@);
            }
            Some(lines)
        },
    }
}

} // verus!
