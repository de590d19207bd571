//! Decoding and encoding at the byte boundary.
//!
//! The session import format and every server response arrive as JSON
//! bytes; an outside parser turns them into the crate's
//! [`JsonValue`](crate::json::JsonValue) model. The picture proxy
//! returns its payload as a base64 data URL. Both outside calls stand
//! behind trusted items; everything that reads their results is
//! verified.

use vstd::prelude::*;
use base64::Engine;
use crate::json::{json_lookup, spec_str_field, JsonValue, JsonEntry};
use crate::model::{cookie_views, CookieItem, CookieItemV};

verus! {

/// The outside parser's document type, opaque to this crate: it is
/// converted whole into [`JsonValue`] at the boundary.
#[verifier::external_type_specification]
#[verifier::external_body]
pub struct ExValue(serde_json::Value);

/// What the JSON parser yields for the given bytes: the decoded
/// document, or nothing when the bytes are not well-formed JSON.
pub uninterp spec fn json_parse(bytes: Seq<u8>) -> Option<JsonValue>;

/// Relies on serde_json::from_slice: decodes the bytes as one JSON
/// document, or fails; the outcome depends on the bytes alone.
#[verifier::external_body]
pub fn parse_json_bytes(bytes: &Vec<u8>) -> (r: Option<JsonValue>)
    ensures
        r == json_parse(bytes@),
{
    match serde_json::from_slice::<serde_json::Value>(bytes.as_slice()) {
        Ok(v) => Some(json_value_to_model(v)),
        Err(_) => None,
    }
}

/// Relies on serde_json::Value: carries each decoded variant into the
/// crate's model, one arm per variant. Numbers are read as unsigned
/// integers, the only way this client ever reads them; any other
/// number degrades to 0, as the tolerant readers would.
#[verifier::external_body]
fn json_value_to_model(v: serde_json::Value) -> JsonValue {
    match v {
        serde_json::Value::Null => JsonValue::Null,
        serde_json::Value::Bool(b) => JsonValue::Bool(b),
        serde_json::Value::Number(n) => JsonValue::Num(n.as_u64().unwrap_or(0)),
        serde_json::Value::String(s) => JsonValue::Str(s),
        serde_json::Value::Array(a) => JsonValue::Arr(
            a.into_iter().map(json_value_to_model).collect(),
        ),
        serde_json::Value::Object(o) => JsonValue::Obj(
            o.into_iter().map(|(k, x)| JsonEntry { key: k, value: json_value_to_model(x) }).collect(),
        ),
    }
}

/// Whether the element's `domain` field is acceptable: absent, null,
/// or a string.
pub open spec fn spec_domain_ok(v: JsonValue) -> bool {
    match json_lookup(v, "domain"@) {
        None => true,
        Some(JsonValue::Null) => true,
        Some(JsonValue::Str(_)) => true,
        Some(_) => false,
    }
}

/// The cookie record one element decodes to: `name` and `value` must
/// be present as strings and `domain` acceptable, else the element is
/// rejected.
pub open spec fn spec_cookie_of(v: JsonValue) -> Option<CookieItemV> {
    match (spec_str_field(v, "name"@), spec_str_field(v, "value"@)) {
        (Some(n), Some(val)) => if spec_domain_ok(v) {
            Some(CookieItemV { name: n, value: val, domain: spec_str_field(v, "domain"@) })
        } else {
            None
        },
        _ => None,
    }
}

/// The record sequence the elements decode to; one bad element rejects
/// the whole sequence.
pub open spec fn spec_records_of_seq(elems: Seq<JsonValue>) -> Option<Seq<CookieItemV>>
    decreases elems.len(),
{
    if elems.len() == 0 {
        Some(Seq::empty())
    } else {
        match (spec_records_of_seq(elems.drop_last()), spec_cookie_of(elems.last())) {
            (Some(rest), Some(c)) => Some(rest.push(c)),
            _ => None,
        }
    }
}

/// The record sequence a decoded document holds: it must be an array
/// of acceptable elements.
pub open spec fn spec_records_of(v: JsonValue) -> Option<Seq<CookieItemV>> {
    match v {
        JsonValue::Arr(elems) => spec_records_of_seq(elems@),
        _ => None,
    }
}

/// One rejected element rejects the whole sequence.
proof fn lemma_records_seq_fail(elems: Seq<JsonValue>, j: int)
    requires
        0 <= j < elems.len(),
        spec_cookie_of(elems[j]) is None,
    ensures
        spec_records_of_seq(elems) is None,
    decreases elems.len(),
{
    if j < elems.len() - 1 {
        lemma_records_seq_fail(elems.drop_last(), j);
    }
}

/// Decode a parsed document into cookie records, strictly: the
/// document must be an array whose every element carries string
/// `name` and `value` fields and at most a null-or-string `domain`.
pub fn decode_records(v: &JsonValue) -> (r: Option<Vec<CookieItem>>)
    ensures
        (match spec_records_of(*v) {
            Some(rs) => r matches Some(out) && cookie_views(out@) == rs,
            None => r is None,
        }),
{
    match v {
        JsonValue::Arr(elems) => {
            let n = elems.len();
            let mut out: Vec<CookieItem> = Vec::new();
            let mut i: usize = 0;
            while i < n
                invariant
                    n == elems.len(),
                    i <= n,
                    *v matches JsonValue::Arr(es) && es@ == elems@,
                    (spec_records_of_seq(elems@.take(i as int)) matches Some(rs) && cookie_views(
                        out@,
                    ) == rs),
                decreases n - i,
            {
                proof {
                    assert(elems@.take(i as int + 1).drop_last() =~= elems@.take(i as int));
                    assert(elems@.take(i as int + 1).last() == elems@[i as int]);
                }
                let name: String = match elems[i].str_field("name") {
                    Some(s) => s,
                    None => {
                        proof {
                            lemma_records_seq_fail(elems@, i as int);
                        }
                        return None;
                    },
                };
                let value: String = match elems[i].str_field("value") {
                    Some(s) => s,
                    None => {
                        proof {
                            lemma_records_seq_fail(elems@, i as int);
                        }
                        return None;
                    },
                };
                let domain: Option<String> = match elems[i].get("domain") {
                    None => None,
                    Some(JsonValue::Null) => None,
                    Some(JsonValue::Str(s)) => Some(s.clone()),
                    Some(_) => {
                        proof {
                            lemma_records_seq_fail(elems@, i as int);
                        }
                        return None;
                    },
                };
                out.push(CookieItem { name, value, domain });
                proof {
                    assert(cookie_views(out@) =~= cookie_views(out@.drop_last()).push(
                        out@.last()@,
                    ));
                }
                i += 1;
            }
            proof {
                assert(elems@.take(n as int) =~= elems@);
            }
            Some(out)
        },
        _ => None,
    }
}

/// What the standard base64 alphabet with padding yields for the given
/// bytes; a function of the bytes alone.
pub uninterp spec fn base64_std(bytes: Seq<u8>) -> Seq<char>;

/// Relies on base64's STANDARD engine: encodes with the standard
/// alphabet and padding, four output characters per three input bytes.
#[verifier::external_body]
pub fn b64_encode(bytes: &Vec<u8>) -> (r: String)
    ensures
        r@ == base64_std(bytes@),
        r@.len() == 4 * ((bytes@.len() + 2) / 3),
{
    base64::engine::general_purpose::STANDARD.encode(bytes.as_slice())
}

/// The content type a data URL carries: the response's, or the generic
/// image type when the response declared none.
pub open spec fn effective_content_type(ct: Option<Seq<char>>) -> Seq<char> {
    match ct {
        Some(s) => s,
        None => "image/jpeg"@,
    }
}

/// A data URL wrapping the fetched body under its content type.
pub open spec fn spec_data_url(ct: Seq<char>, body: Seq<u8>) -> Seq<char> {
    "data:"@ + ct + ";base64,"@ + base64_std(body)
}

/// A data URL begins with `data:`, its content type and `;base64,`,
/// whatever the payload encodes to.
pub proof fn lemma_data_url_prefix(ct: Seq<char>, body: Seq<u8>)
    ensures
        spec_data_url(ct, body).take(("data:"@ + ct + ";base64,"@).len() as int) == "data:"@ + ct
            + ";base64,"@,
{
    assert(spec_data_url(ct, body).take(("data:"@ + ct + ";base64,"@).len() as int) =~= "data:"@
        + ct + ";base64,"@);
}

/// Wrap fetched image bytes as a base64 data URL, defaulting the
/// content type to the generic image type when the response gave none.
pub fn image_data_url(content_type: &Option<String>, body: &Vec<u8>) -> (r: String)
    ensures
        r@ == spec_data_url(
            effective_content_type(
                match content_type {
                    Some(s) => Some(s@),
                    None => None,
                },
            ),
            body@,
        ),
{
    let mut s: String = "data:".to_owned();
    match content_type {
        Some(ct) => s.append(ct.as_str()),
        None => s.append("image/jpeg"),
    }
    s.append(";base64,");
    let b64 = b64_encode(body);
    s.append(b64.as_str());
    s
}

} // verus!
