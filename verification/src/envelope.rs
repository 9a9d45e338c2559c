//! Interpreting the server's response body.
//!
//! The body is JSON.  Parsing the text is delegated to serde_json behind
//! the trusted boundary at the top of this module; everything after the
//! parse is verified.  The boundary hands the parsed document over as
//! [`JsonNode`], a plain tree the library owns, and the parse itself — a
//! function of the text alone — is named by [`json_of`].  Every decision
//! about the tree is then verified against an exact contract: how the
//! well-known `"licenses"` key is found, which shape failures are
//! distinguished, which fields a license entry must carry, and how its wire
//! tag, version string and counts are interpreted.

use vstd::prelude::*;

use crate::response::License;
use crate::response::ResponseEnvelope;
use crate::response::ResponseParseError;
use crate::response::product_from_tag;
use crate::response::spec_product_from_tag;
use crate::response::str_eq;
use crate::version::parse_version;
use crate::version::spec_parse_version;

verus! {

#[verifier::external_type_specification]
#[verifier::external_body]
pub struct ExValue(serde_json::Value);

/// A parsed JSON document as plain values the library owns.  Object members
/// keep the order the parser hands them out in; an integer that does not
/// fit `i64` (or is not an integer at all) is carried shapeless as
/// `BigNumber`, since no field the engine reads may hold one.
#[derive(Debug)]
pub enum JsonNode {
    Null,
    Bool(bool),
    Int(i64),
    BigNumber,
    Text(String),
    Array(Vec<JsonNode>),
    Object(Vec<(String, JsonNode)>),
}

/// The parse of a response body: what serde_json makes of the text,
/// converted to the library's plain tree, or `None` when the text is not
/// valid JSON.  The parse is a function of the text alone, so its result is
/// named rather than written out.
pub uninterp spec fn json_of(text: Seq<char>) -> Option<JsonNode>;

/// Relies on the public variants of serde_json::Value, on
/// serde_json::Map::iter and on serde_json::Number::as_i64: copies the
/// parsed document into the library's plain tree, one variant at a time,
/// moving each field.
#[verifier::external_body]
fn node_of_value(v: &serde_json::Value) -> JsonNode {
    match v {
        serde_json::Value::Null => JsonNode::Null,
        serde_json::Value::Bool(b) => JsonNode::Bool(*b),
        serde_json::Value::Number(n) => n.as_i64().map_or(JsonNode::BigNumber, JsonNode::Int),
        serde_json::Value::String(s) => JsonNode::Text(s.clone()),
        serde_json::Value::Array(a) => JsonNode::Array(a.iter().map(node_of_value).collect()),
        serde_json::Value::Object(m) => {
            JsonNode::Object(m.iter().map(|(k, w)| (k.clone(), node_of_value(w))).collect())
        },
    }
}

/// Relies on serde_json::from_str, whose result is a function of the text
/// alone: the parse, converted by [`node_of_value`], is exactly what
/// [`json_of`] names.
#[verifier::external_body]
fn json_from_str(text: &str) -> (r: Option<JsonNode>)
    ensures
        r == json_of(text@),
{
    serde_json::from_str::<serde_json::Value>(text).ok().map(|v| node_of_value(&v))
}

/// The value under the first member with this key, if any.
pub open spec fn lookup(pairs: Seq<(String, JsonNode)>, key: Seq<char>) -> Option<JsonNode>
    decreases pairs.len(),
{
    if pairs.len() == 0 {
        None
    } else if pairs[0].0@ == key {
        Some(pairs[0].1)
    } else {
        lookup(pairs.drop_first(), key)
    }
}

/// The member's text, when the member exists and holds a string.
pub open spec fn node_str(pairs: Seq<(String, JsonNode)>, key: Seq<char>) -> Option<String> {
    match lookup(pairs, key) {
        Some(JsonNode::Text(s)) => Some(s),
        _ => None,
    }
}

/// The member's integer, when the member exists and holds one that fits
/// `i64`.
pub open spec fn node_int(pairs: Seq<(String, JsonNode)>, key: Seq<char>) -> Option<i64> {
    match lookup(pairs, key) {
        Some(JsonNode::Int(n)) => Some(n),
        _ => None,
    }
}

/// The member's boolean, when the member exists and holds one.
pub open spec fn node_bool(pairs: Seq<(String, JsonNode)>, key: Seq<char>) -> Option<bool> {
    match lookup(pairs, key) {
        Some(JsonNode::Bool(b)) => Some(b),
        _ => None,
    }
}

/// Find the first member with this key.
fn get_node<'a>(pairs: &'a Vec<(String, JsonNode)>, key: &str) -> (r: Option<&'a JsonNode>)
    ensures
        match r {
            Some(node) => lookup(pairs@, key@) == Some(*node),
            None => lookup(pairs@, key@) is None,
        },
{
    let n = pairs.len();
    let mut i: usize = 0;
    proof {
        assert(pairs@.skip(0) =~= pairs@);
    }
    while i < n
        invariant
            0 <= i <= n == pairs@.len(),
            lookup(pairs@, key@) == lookup(pairs@.skip(i as int), key@),
        decreases n - i,
    {
        proof {
            assert(pairs@.skip(i as int)[0] == pairs@[i as int]);
            assert(pairs@.skip(i as int).drop_first() =~= pairs@.skip(i as int + 1));
        }
        if str_eq(pairs[i].0.as_str(), key) {
            return Some(&pairs[i].1);
        }
        i += 1;
    }
    proof {
        assert(pairs@.skip(n as int) =~= Seq::<(String, JsonNode)>::empty());
    }
    None
}

fn get_str_field(pairs: &Vec<(String, JsonNode)>, key: &str) -> (r: Result<
    String,
    ResponseParseError,
>)
    ensures
        node_str(pairs@, key@) is Some ==> r == Ok::<String, ResponseParseError>(
            node_str(pairs@, key@)->0,
        ),
        node_str(pairs@, key@) is None ==> r == Err::<String, ResponseParseError>(
            ResponseParseError::MalformedRecord,
        ),
{
    match get_node(pairs, key) {
        Some(JsonNode::Text(s)) => Ok(s.clone()),
        _ => Err(ResponseParseError::MalformedRecord),
    }
}

fn get_i64_field(pairs: &Vec<(String, JsonNode)>, key: &str) -> (r: Result<
    i64,
    ResponseParseError,
>)
    ensures
        node_int(pairs@, key@) is Some ==> r == Ok::<i64, ResponseParseError>(
            node_int(pairs@, key@)->0,
        ),
        node_int(pairs@, key@) is None ==> r == Err::<i64, ResponseParseError>(
            ResponseParseError::MalformedRecord,
        ),
{
    match get_node(pairs, key) {
        Some(JsonNode::Int(n)) => Ok(*n),
        _ => Err(ResponseParseError::MalformedRecord),
    }
}

fn get_bool_field(pairs: &Vec<(String, JsonNode)>, key: &str) -> (r: Result<
    bool,
    ResponseParseError,
>)
    ensures
        node_bool(pairs@, key@) is Some ==> r == Ok::<bool, ResponseParseError>(
            node_bool(pairs@, key@)->0,
        ),
        node_bool(pairs@, key@) is None ==> r == Err::<bool, ResponseParseError>(
            ResponseParseError::MalformedRecord,
        ),
{
    match get_node(pairs, key) {
        Some(JsonNode::Bool(b)) => Ok(*b),
        _ => Err(ResponseParseError::MalformedRecord),
    }
}

/// One license entry's fields as plain values, exactly as found in the
/// JSON: the wire tag and the version string still uninterpreted, the
/// counts still in the width JSON integers arrive in.
#[derive(Clone, Debug)]
pub struct RawLicense {
    pub id: String,
    pub platform: String,
    pub product: String,
    pub product_tag: String,
    pub version: String,
    pub available: i64,
    pub total_tokens: i64,
    pub expires: String,
    pub ip_mask: String,
    pub ipmatch: bool,
    pub servers: String,
    pub signature: String,
    pub license_access_mode: String,
}

/// How one entry's node reads as a raw entry: it must be an object
/// carrying every field of the wire format with the right shape; anything
/// else is a malformed record.
pub open spec fn spec_raw_from_node(n: JsonNode) -> Result<RawLicense, ResponseParseError> {
    if !(n is Object) {
        Err(ResponseParseError::MalformedRecord)
    } else {
        let p = n->Object_0@;
        if node_str(p, "id"@) is None || node_str(p, "platform"@) is None || node_str(
            p,
            "product"@,
        ) is None || node_str(p, "product_id"@) is None || node_str(p, "version"@) is None
            || node_int(p, "available"@) is None || node_int(p, "total_tokens"@) is None
            || node_str(p, "expires"@) is None || node_str(p, "ip_mask"@) is None || node_bool(
            p,
            "ipmatch"@,
        ) is None || node_str(p, "servers"@) is None || node_str(p, "signature"@) is None
            || node_str(p, "license_access_mode"@) is None {
            Err(ResponseParseError::MalformedRecord)
        } else {
            Ok(
                RawLicense {
                    id: node_str(p, "id"@)->0,
                    platform: node_str(p, "platform"@)->0,
                    product: node_str(p, "product"@)->0,
                    product_tag: node_str(p, "product_id"@)->0,
                    version: node_str(p, "version"@)->0,
                    available: node_int(p, "available"@)->0,
                    total_tokens: node_int(p, "total_tokens"@)->0,
                    expires: node_str(p, "expires"@)->0,
                    ip_mask: node_str(p, "ip_mask"@)->0,
                    ipmatch: node_bool(p, "ipmatch"@)->0,
                    servers: node_str(p, "servers"@)->0,
                    signature: node_str(p, "signature"@)->0,
                    license_access_mode: node_str(p, "license_access_mode"@)->0,
                },
            )
        }
    }
}

/// Pull one license entry's fields out of its node; see
/// [`spec_raw_from_node`].
fn raw_from_node(n: &JsonNode) -> (r: Result<RawLicense, ResponseParseError>)
    ensures
        r == spec_raw_from_node(*n),
{
    let pairs = match n {
        JsonNode::Object(pairs) => pairs,
        _ => {
            return Err(ResponseParseError::MalformedRecord);
        },
    };
    let id = get_str_field(pairs, "id")?;
    let platform = get_str_field(pairs, "platform")?;
    let product = get_str_field(pairs, "product")?;
    let product_tag = get_str_field(pairs, "product_id")?;
    let version = get_str_field(pairs, "version")?;
    let available = get_i64_field(pairs, "available")?;
    let total_tokens = get_i64_field(pairs, "total_tokens")?;
    let expires = get_str_field(pairs, "expires")?;
    let ip_mask = get_str_field(pairs, "ip_mask")?;
    let ipmatch = get_bool_field(pairs, "ipmatch")?;
    let servers = get_str_field(pairs, "servers")?;
    let signature = get_str_field(pairs, "signature")?;
    let license_access_mode = get_str_field(pairs, "license_access_mode")?;
    Ok(
        RawLicense {
            id,
            platform,
            product,
            product_tag,
            version,
            available,
            total_tokens,
            expires,
            ip_mask,
            ipmatch,
            servers,
            signature,
            license_access_mode,
        },
    )
}

/// How a list of entry nodes reads as raw entries: every node in order,
/// the first malformed one failing the whole list.
pub open spec fn spec_raws_from_nodes(items: Seq<JsonNode>) -> Result<
    Seq<RawLicense>,
    ResponseParseError,
>
    decreases items.len(),
{
    if items.len() == 0 {
        Ok(Seq::empty())
    } else {
        match spec_raws_from_nodes(items.drop_last()) {
            Err(e) => Err(e),
            Ok(raws) => match spec_raw_from_node(items.last()) {
                Err(e) => Err(e),
                Ok(raw) => Ok(raws.push(raw)),
            },
        }
    }
}

/// Once a prefix of the entry nodes fails, the whole list fails with the
/// same error.
proof fn lemma_raws_error_persists(items: Seq<JsonNode>, i: int, e: ResponseParseError)
    requires
        0 <= i < items.len(),
        spec_raws_from_nodes(items.subrange(0, i + 1)) == Err::<Seq<RawLicense>, ResponseParseError>(
            e,
        ),
    ensures
        spec_raws_from_nodes(items) == Err::<Seq<RawLicense>, ResponseParseError>(e),
    decreases items.len(),
{
    if i + 1 == items.len() {
        assert(items.subrange(0, i + 1) =~= items);
    } else {
        assert(items.drop_last().subrange(0, i + 1) =~= items.subrange(0, i + 1));
        lemma_raws_error_persists(items.drop_last(), i, e);
    }
}

/// How one raw entry interprets: its version string must parse, its counts
/// must fit the server's 32-bit width, its wire tag maps to a product kind
/// (unrecognized tags to `Other`, never an error), and everything else is
/// passed through untouched.
pub open spec fn spec_license_from_raw(raw: RawLicense) -> Result<License, ResponseParseError> {
    match spec_parse_version(raw.version@) {
        Err(e) => Err(ResponseParseError::InvalidVersion(e)),
        Ok(version) => {
            if raw.available > i32::MAX as i64 || raw.available < i32::MIN as i64 {
                Err(ResponseParseError::CountOutOfRange)
            } else if raw.total_tokens > i32::MAX as i64 || raw.total_tokens < i32::MIN as i64 {
                Err(ResponseParseError::CountOutOfRange)
            } else {
                Ok(
                    License {
                        id: raw.id,
                        platform: raw.platform,
                        product: raw.product,
                        product_id: spec_product_from_tag(raw.product_tag@),
                        version,
                        available: raw.available as i32,
                        total_tokens: raw.total_tokens as i32,
                        expires: raw.expires,
                        ip_mask: raw.ip_mask,
                        ipmatch: raw.ipmatch,
                        servers: raw.servers,
                        signature: raw.signature,
                        license_access_mode: raw.license_access_mode,
                    },
                )
            }
        },
    }
}

/// Interpret one raw entry; see [`spec_license_from_raw`].
pub fn license_from_raw(raw: &RawLicense) -> (r: Result<License, ResponseParseError>)
    ensures
        r == spec_license_from_raw(*raw),
{
    let version = match parse_version(raw.version.as_str()) {
        Err(e) => {
            return Err(ResponseParseError::InvalidVersion(e));
        },
        Ok(v) => v,
    };
    if raw.available > i32::MAX as i64 || raw.available < i32::MIN as i64 {
        return Err(ResponseParseError::CountOutOfRange);
    }
    if raw.total_tokens > i32::MAX as i64 || raw.total_tokens < i32::MIN as i64 {
        return Err(ResponseParseError::CountOutOfRange);
    }
    Ok(
        License {
            id: raw.id.clone(),
            platform: raw.platform.clone(),
            product: raw.product.clone(),
            product_id: product_from_tag(raw.product_tag.as_str()),
            version,
            available: raw.available as i32,
            total_tokens: raw.total_tokens as i32,
            expires: raw.expires.clone(),
            ip_mask: raw.ip_mask.clone(),
            ipmatch: raw.ipmatch,
            servers: raw.servers.clone(),
            signature: raw.signature.clone(),
            license_access_mode: raw.license_access_mode.clone(),
        },
    )
}

/// How a list of raw entries interprets: every entry in order, the first
/// failing entry's error failing the whole list.
pub open spec fn spec_envelope_from_raw(raws: Seq<RawLicense>) -> Result<
    Seq<License>,
    ResponseParseError,
>
    decreases raws.len(),
{
    if raws.len() == 0 {
        Ok(Seq::empty())
    } else {
        match spec_envelope_from_raw(raws.drop_last()) {
            Err(e) => Err(e),
            Ok(ls) => match spec_license_from_raw(raws.last()) {
                Err(e) => Err(e),
                Ok(l) => Ok(ls.push(l)),
            },
        }
    }
}

/// Interpret a list of raw entries into an envelope; see
/// [`spec_envelope_from_raw`].
pub fn envelope_from_raw(raws: &Vec<RawLicense>) -> (r: Result<
    ResponseEnvelope,
    ResponseParseError,
>)
    ensures
        r is Ok ==> spec_envelope_from_raw(raws@) == Ok::<Seq<License>, ResponseParseError>(
            r->Ok_0.licenses@,
        ),
        r is Err ==> spec_envelope_from_raw(raws@) == Err::<Seq<License>, ResponseParseError>(
            r->Err_0,
        ),
{
    let n = raws.len();
    let mut licenses: Vec<License> = Vec::new();
    let mut i: usize = 0;
    while i < n
        invariant
            0 <= i <= n == raws@.len(),
            spec_envelope_from_raw(raws@.subrange(0, i as int)) == Ok::<
                Seq<License>,
                ResponseParseError,
            >(licenses@),
        decreases n - i,
    {
        proof {
            let prefix = raws@.subrange(0, (i + 1) as int);
            assert(prefix.drop_last() =~= raws@.subrange(0, i as int));
            assert(prefix.last() == raws@[i as int]);
        }
        match license_from_raw(&raws[i]) {
            Err(e) => {
                proof {
                    lemma_envelope_error_persists(raws@, i as int, e);
                }
                return Err(e);
            },
            Ok(l) => {
                licenses.push(l);
            },
        }
        i += 1;
    }
    proof {
        assert(raws@.subrange(0, n as int) =~= raws@);
    }
    Ok(ResponseEnvelope { licenses })
}

/// Once a prefix of the raw list fails, the whole list fails with the same
/// error.
proof fn lemma_envelope_error_persists(raws: Seq<RawLicense>, i: int, e: ResponseParseError)
    requires
        0 <= i < raws.len(),
        spec_envelope_from_raw(raws.subrange(0, i + 1)) == Err::<Seq<License>, ResponseParseError>(
            e,
        ),
    ensures
        spec_envelope_from_raw(raws) == Err::<Seq<License>, ResponseParseError>(e),
    decreases raws.len(),
{
    if i + 1 == raws.len() {
        assert(raws.subrange(0, i + 1) =~= raws);
    } else {
        assert(raws.drop_last().subrange(0, i + 1) =~= raws.subrange(0, i + 1));
        lemma_envelope_error_persists(raws.drop_last(), i, e);
    }
}

/// How a whole response body interprets, as a function of its parse: text
/// that is not JSON is malformed; a document without the `"licenses"` key —
/// including one that is no object at all — fails distinctly for the
/// missing required key, unknown keys beside it ignored; the key must hold
/// an array; and the entries then read as raw entries and interpret as
/// license records, the first bad one failing the whole envelope.
pub open spec fn spec_envelope_result(root: Option<JsonNode>) -> Result<
    Seq<License>,
    ResponseParseError,
> {
    match root {
        None => Err(ResponseParseError::MalformedJson),
        Some(n) => {
            if !(n is Object) {
                Err(ResponseParseError::MissingLicensesKey)
            } else {
                match lookup(n->Object_0@, "licenses"@) {
                    None => Err(ResponseParseError::MissingLicensesKey),
                    Some(v) => {
                        if !(v is Array) {
                            Err(ResponseParseError::LicensesNotArray)
                        } else {
                            match spec_raws_from_nodes(v->Array_0@) {
                                Err(e) => Err(e),
                                Ok(raws) => spec_envelope_from_raw(raws),
                            }
                        }
                    },
                }
            }
        },
    }
}

/// Interpret a response body into an envelope: exactly
/// [`spec_envelope_result`] of the body's parse, [`json_of`]`(text@)`.
pub fn parse_envelope(text: &str) -> (r: Result<ResponseEnvelope, ResponseParseError>)
    ensures
        r is Ok ==> spec_envelope_result(json_of(text@)) == Ok::<Seq<License>, ResponseParseError>(
            r->Ok_0.licenses@,
        ),
        r is Err ==> spec_envelope_result(json_of(text@)) == Err::<
            Seq<License>,
            ResponseParseError,
        >(r->Err_0),
{
    let root = json_from_str(text);
    let node = match root {
        None => {
            return Err(ResponseParseError::MalformedJson);
        },
        Some(node) => node,
    };
    let pairs = match &node {
        JsonNode::Object(pairs) => pairs,
        _ => {
            return Err(ResponseParseError::MissingLicensesKey);
        },
    };
    let licenses_node = match get_node(pairs, "licenses") {
        None => {
            return Err(ResponseParseError::MissingLicensesKey);
        },
        Some(v) => v,
    };
    let items = match licenses_node {
        JsonNode::Array(items) => items,
        _ => {
            return Err(ResponseParseError::LicensesNotArray);
        },
    };
    let n = items.len();
    let mut raws: Vec<RawLicense> = Vec::new();
    let mut i: usize = 0;
    while i < n
        invariant
            0 <= i <= n == items@.len(),
            spec_raws_from_nodes(items@.subrange(0, i as int)) == Ok::<
                Seq<RawLicense>,
                ResponseParseError,
            >(raws@),
            json_of(text@) == Some(node),
            node is Object,
            node->Object_0 == *pairs,
            lookup(pairs@, "licenses"@) == Some(*licenses_node),
            *licenses_node is Array,
            licenses_node->Array_0 == *items,
        decreases n - i,
    {
        proof {
            let prefix = items@.subrange(0, (i + 1) as int);
            assert(prefix.drop_last() =~= items@.subrange(0, i as int));
            assert(prefix.last() == items@[i as int]);
        }
        match raw_from_node(&items[i]) {
            Err(e) => {
                proof {
                    lemma_raws_error_persists(items@, i as int, e);
                }
                return Err(e);
            },
            Ok(raw) => {
                raws.push(raw);
            },
        }
        i += 1;
    }
    proof {
        assert(items@.subrange(0, n as int) =~= items@);
    }
    envelope_from_raw(&raws)
}

} // verus!
