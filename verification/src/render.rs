//! Decoding a record's payload as structured text and re-rendering it in the
//! indented, human-readable form the sink prints.
//!
//! The parser and printer are serde_json's; the library states their
//! behaviour over two named results, `json_ok` and `pretty_of`, and proves
//! everything downstream of the one trusted call against those names.

use vstd::prelude::*;
use vstd::string::StringExecFns;

verus! {

/// A payload that is not well-formed structured text, with the decoder's
/// diagnostic for the operator.
#[derive(Debug)]
pub struct DecodeError {
    pub message: String,
}

/// Whether `serde_json::from_slice::<serde_json::Value>` accepts these bytes
/// as one well-formed document. It depends on the bytes alone.
pub uninterp spec fn json_ok(data: Seq<u8>) -> bool;

/// The text `serde_json::to_string_pretty` renders for the value parsed from
/// these bytes; meaningful only when `json_ok` holds of them. The parsed
/// value, and so the rendering, depends on the bytes alone.
pub uninterp spec fn pretty_of(data: Seq<u8>) -> Seq<char>;

/// Relies on `serde_json::from_slice::<serde_json::Value>` and
/// `serde_json::to_string_pretty`, with serde_json's `float_roundtrip`
/// feature enabled. Parsing succeeds or fails on the bytes alone, and the
/// rendering is a function of the parsed value alone. Serializing a
/// `serde_json::Value` cannot fail (only a failing `Serialize` impl or a map
/// with non-string keys can, and a `Value` has neither), so success is
/// exactly parse success. The rendered text is itself a well-formed document
/// that parses back to an equal value: strings, booleans, nulls, integers
/// and structure are reproduced verbatim, and for floats `float_roundtrip`
/// makes text -> f64 -> text lossless (without it, re-parsing the shortest
/// rendering of an extreme double can round differently). An equal value
/// renders to the same text again; the last two `ensures` clauses state that
/// round trip over the named results.
#[verifier::external_body]
fn decode_then_render(data: &[u8]) -> (r: Result<String, DecodeError>)
    ensures
        r is Ok <==> json_ok(data@),
        r is Ok ==> r->Ok_0@ == pretty_of(data@),
        r is Ok ==> json_ok(vstd::utf8::encode_utf8(pretty_of(data@))),
        r is Ok ==> pretty_of(vstd::utf8::encode_utf8(pretty_of(data@))) == pretty_of(data@),
{
    match serde_json::from_slice::<serde_json::Value>(data) {
        Ok(v) => match serde_json::to_string_pretty(&v) {
            Ok(s) => Ok(s),
            Err(e) => Err(DecodeError { message: e.to_string() }),
        },
        Err(e) => Err(DecodeError { message: e.to_string() }),
    }
}

/// Decode one record's payload and render it in indented form. Succeeds
/// exactly on well-formed payloads; on a malformed one the decoder's
/// diagnostic comes back and the caller aborts the run.
pub fn render_payload(data: &[u8]) -> (r: Result<String, DecodeError>)
    ensures
        r is Ok <==> json_ok(data@),
        r is Ok ==> r->Ok_0@ == pretty_of(data@),
        r is Ok ==> json_ok(vstd::utf8::encode_utf8(pretty_of(data@))),
        r is Ok ==> pretty_of(vstd::utf8::encode_utf8(pretty_of(data@))) == pretty_of(data@),
{
    decode_then_render(data)
}

/// Re-serialization is idempotent: rendering a well-formed payload and then
/// rendering the rendered text again yields the very same text. The second
/// component of the result is the second rendering, proved equal to the
/// first.
pub fn render_twice(data: &[u8]) -> (r: Result<(String, String), DecodeError>)
    ensures
        r is Ok <==> json_ok(data@),
        r is Ok ==> r->Ok_0.0@ == pretty_of(data@),
        r is Ok ==> r->Ok_0.1@ == r->Ok_0.0@,
{
    let first = match render_payload(data) {
        Ok(s) => s,
        Err(e) => {
            return Err(e);
        },
    };
    match render_payload(first.as_str().as_bytes()) {
        Ok(second) => Ok((first, second)),
        Err(e) => {
            proof {
                assert(false);
            }
            Err(e)
        },
    }
}

/// One output block, as the sink prints it: a separator line of two dashes,
/// then the rendered payload.
pub fn format_block(pretty: &str) -> (r: String)
    ensures
        r@ == seq!['-', '-', '\n'] + pretty@,
{
    proof {
        reveal_strlit("--\n");
    }
    let mut s = String::new();
    s.append("--\n");
    s.append(pretty);
    proof {
        assert(s@ =~= seq!['-', '-', '\n'] + pretty@);
    }
    s
}

} // verus!
