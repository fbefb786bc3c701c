//! The parser: turns the measurement tool's raw JSON text into the
//! canonical record.
//!
//! The JSON tree is read through the named wrappers in `json`, so both
//! acceptance and every extracted field are pinned, as functions of the
//! raw text, by `raw_ok` and `is_parsed_result`: parsing succeeds if
//! and only if the text is acceptable JSON whose required fields have
//! the required shapes, and the parsed record's every field equals the
//! named read of the document. Number fields must render in plain
//! decimal notation (`valid_decimal`): exponent-rendered numbers — in
//! practice only absurdly large or small rates — are rejected as
//! malformed, as are negative numbers and values whose micro-units
//! exceed `u64`.

use vstd::prelude::*;

use crate::digits::decimal_micro_val;
use crate::digits::parse_decimal_micro;
use crate::digits::valid_decimal;
use crate::json::json_accepts;
use crate::json::json_as_string;
use crate::json::json_as_u64;
use crate::json::json_canon;
use crate::json::json_error_text;
use crate::json::json_from_str;
use crate::json::json_get;
use crate::json::json_is_null;
use crate::json::json_number_text;
use crate::json::json_value_text;
use crate::json::jv_field;
use crate::json::jv_has;
use crate::json::jv_is_null;
use crate::json::jv_num_text;
use crate::json::jv_str;
use crate::json::jv_text;
use crate::json::jv_u64;
use crate::models::ClientInfo;
use crate::models::ServerInfo;
use crate::models::SpeedTestResponse;
use crate::models::SpeedTestResult;
use crate::models::canonicalize;
use crate::models::result_wf;
use crate::models::spec_mbps;

verus! {

/// Why raw measurement text could not be parsed.
#[derive(Debug)]
pub enum ParseError {
    /// The text is structurally invalid or a required field is missing
    /// or of the wrong shape; the detail names what was wrong.
    Malformed(String),
}

impl ParseError {
    /// The diagnostic detail.
    pub fn detail(&self) -> &String {
        match self {
            ParseError::Malformed(d) => d,
        }
    }
}

/// The document (with canonical text `t`) has the key, holding a JSON
/// string.
pub open spec fn str_field_ok(t: Seq<char>, key: Seq<char>) -> bool {
    jv_has(t, key) && jv_str(jv_field(t, key)) is Some
}

/// That string.
pub open spec fn str_field(t: Seq<char>, key: Seq<char>) -> Seq<char> {
    jv_str(jv_field(t, key))->Some_0
}

/// The document has the key, holding an unsigned integer.
pub open spec fn u64_field_ok(t: Seq<char>, key: Seq<char>) -> bool {
    jv_has(t, key) && jv_u64(jv_field(t, key)) is Some
}

/// That integer.
pub open spec fn u64_field(t: Seq<char>, key: Seq<char>) -> u64 {
    jv_u64(jv_field(t, key))->Some_0
}

/// The document has the key, holding a number whose decimal text is in
/// plain decimal shape with a micro-unit value that fits in `u64`.
pub open spec fn micro_field_ok(t: Seq<char>, key: Seq<char>) -> bool {
    &&& jv_has(t, key)
    &&& jv_num_text(jv_field(t, key)) is Some
    &&& valid_decimal(jv_num_text(jv_field(t, key))->Some_0)
    &&& decimal_micro_val(jv_num_text(jv_field(t, key))->Some_0) <= u64::MAX
}

/// That number's value in micro-units.
pub open spec fn micro_field(t: Seq<char>, key: Seq<char>) -> int {
    decimal_micro_val(jv_num_text(jv_field(t, key))->Some_0)
}

/// The document carries an opaque payload under the key: present and
/// not JSON null.
pub open spec fn payload_present(t: Seq<char>, key: Seq<char>) -> bool {
    jv_has(t, key) && !jv_is_null(jv_field(t, key))
}

/// The client object (with canonical text `ct`) has all its fields, as
/// strings.
pub open spec fn client_ok(ct: Seq<char>) -> bool {
    &&& str_field_ok(ct, "country"@)
    &&& str_field_ok(ct, "ip"@)
    &&& str_field_ok(ct, "isp"@)
    &&& str_field_ok(ct, "ispdlavg"@)
    &&& str_field_ok(ct, "isprating"@)
    &&& str_field_ok(ct, "ispulavg"@)
    &&& str_field_ok(ct, "lat"@)
    &&& str_field_ok(ct, "loggedin"@)
    &&& str_field_ok(ct, "lon"@)
    &&& str_field_ok(ct, "rating"@)
}

/// The client descriptor equals, field by field, the named reads of the
/// client object.
pub open spec fn is_extracted_client(ci: ClientInfo, ct: Seq<char>) -> bool {
    &&& ci.country@ == str_field(ct, "country"@)
    &&& ci.ip@ == str_field(ct, "ip"@)
    &&& ci.isp@ == str_field(ct, "isp"@)
    &&& ci.ispdlavg@ == str_field(ct, "ispdlavg"@)
    &&& ci.isprating@ == str_field(ct, "isprating"@)
    &&& ci.ispulavg@ == str_field(ct, "ispulavg"@)
    &&& ci.lat@ == str_field(ct, "lat"@)
    &&& ci.loggedin@ == str_field(ct, "loggedin"@)
    &&& ci.lon@ == str_field(ct, "lon"@)
    &&& ci.rating@ == str_field(ct, "rating"@)
}

/// The server object (with canonical text `st`) has all its fields:
/// strings, and plain-decimal numbers for distance and latency.
pub open spec fn server_ok(st: Seq<char>) -> bool {
    &&& str_field_ok(st, "cc"@)
    &&& str_field_ok(st, "country"@)
    &&& micro_field_ok(st, "d"@)
    &&& str_field_ok(st, "host"@)
    &&& str_field_ok(st, "id"@)
    &&& str_field_ok(st, "lat"@)
    &&& micro_field_ok(st, "latency"@)
    &&& str_field_ok(st, "lon"@)
    &&& str_field_ok(st, "name"@)
    &&& str_field_ok(st, "sponsor"@)
    &&& str_field_ok(st, "url"@)
}

/// The server descriptor equals, field by field, the named reads of the
/// server object.
pub open spec fn is_extracted_server(si: ServerInfo, st: Seq<char>) -> bool {
    &&& si.cc@ == str_field(st, "cc"@)
    &&& si.country@ == str_field(st, "country"@)
    &&& si.d == micro_field(st, "d"@)
    &&& si.host@ == str_field(st, "host"@)
    &&& si.id@ == str_field(st, "id"@)
    &&& si.lat@ == str_field(st, "lat"@)
    &&& si.latency == micro_field(st, "latency"@)
    &&& si.lon@ == str_field(st, "lon"@)
    &&& si.name@ == str_field(st, "name"@)
    &&& si.sponsor@ == str_field(st, "sponsor"@)
    &&& si.url@ == str_field(st, "url"@)
}

/// The document (with canonical text `t`) has every required field in
/// its required shape.
pub open spec fn doc_ok(t: Seq<char>) -> bool {
    &&& u64_field_ok(t, "bytes_received"@)
    &&& u64_field_ok(t, "bytes_sent"@)
    &&& jv_has(t, "client"@)
    &&& client_ok(jv_field(t, "client"@))
    &&& micro_field_ok(t, "download"@)
    &&& micro_field_ok(t, "ping"@)
    &&& jv_has(t, "server"@)
    &&& server_ok(jv_field(t, "server"@))
    &&& str_field_ok(t, "timestamp"@)
    &&& micro_field_ok(t, "upload"@)
}

/// The raw measurement equals, field by field, the named reads of the
/// document.
pub open spec fn is_extracted_response(resp: SpeedTestResponse, t: Seq<char>) -> bool {
    &&& resp.bytes_received == u64_field(t, "bytes_received"@)
    &&& resp.bytes_sent == u64_field(t, "bytes_sent"@)
    &&& is_extracted_client(resp.client, jv_field(t, "client"@))
    &&& resp.download == micro_field(t, "download"@)
    &&& resp.ping == micro_field(t, "ping"@)
    &&& is_extracted_server(resp.server, jv_field(t, "server"@))
    &&& (resp.share is Some <==> payload_present(t, "share"@))
    &&& (resp.share matches Some(s) ==> s@ == jv_field(t, "share"@))
    &&& resp.timestamp@ == str_field(t, "timestamp"@)
    &&& resp.upload == micro_field(t, "upload"@)
}

/// When `parse` succeeds: the raw text is acceptable JSON and its
/// document has every required field in its required shape.
pub open spec fn raw_ok(s: Seq<char>) -> bool {
    json_accepts(s) && doc_ok(json_canon(s))
}

/// What `parse` returns on raw text `s`: the canonical record whose
/// every field equals the named read of the document, with both Mbps
/// rates derived exactly from the bps rates.
pub open spec fn is_parsed_result(c: SpeedTestResult, s: Seq<char>) -> bool {
    let t = json_canon(s);
    &&& c.bytes_received == u64_field(t, "bytes_received"@)
    &&& c.bytes_sent == u64_field(t, "bytes_sent"@)
    &&& c.download_bps == micro_field(t, "download"@)
    &&& c.upload_bps == micro_field(t, "upload"@)
    &&& c.download_mbps == spec_mbps(c.download_bps)
    &&& c.upload_mbps == spec_mbps(c.upload_bps)
    &&& c.ping_ms == micro_field(t, "ping"@)
    &&& is_extracted_client(c.client, jv_field(t, "client"@))
    &&& is_extracted_server(c.server, jv_field(t, "server"@))
    &&& (c.share is Some <==> payload_present(t, "share"@))
    &&& (c.share matches Some(s2) ==> s2@ == jv_field(t, "share"@))
    &&& c.timestamp@ == str_field(t, "timestamp"@)
}

/// A required unsigned-integer field of a JSON object, or why it is
/// unusable.
fn req_u64(v: &serde_json::Value, key: &str, label: &str) -> (r: Result<u64, ParseError>)
    ensures
        r is Ok <==> u64_field_ok(jv_text(*v), key@),
        r matches Ok(n) ==> n == u64_field(jv_text(*v), key@),
        r matches Err(e) ==> (e matches ParseError::Malformed(d) && d@ == label@),
{
    match json_get(v, key) {
        Some(f) => match json_as_u64(f) {
            Some(n) => Ok(n),
            None => Err(ParseError::Malformed(label.to_owned())),
        },
        None => Err(ParseError::Malformed(label.to_owned())),
    }
}

/// A required string field of a JSON object, or why it is unusable.
fn req_string(v: &serde_json::Value, key: &str, label: &str) -> (r: Result<String, ParseError>)
    ensures
        r is Ok <==> str_field_ok(jv_text(*v), key@),
        r matches Ok(s) ==> s@ == str_field(jv_text(*v), key@),
        r matches Err(e) ==> (e matches ParseError::Malformed(d) && d@ == label@),
{
    match json_get(v, key) {
        Some(f) => match json_as_string(f) {
            Some(s) => Ok(s),
            None => Err(ParseError::Malformed(label.to_owned())),
        },
        None => Err(ParseError::Malformed(label.to_owned())),
    }
}

/// A required non-negative numeric field of a JSON object, in
/// micro-units, or why it is unusable. The number's decimal text is
/// parsed exactly; negative numbers, exponent notation and values too
/// large for `u64` micro-units are rejected.
fn req_micro(v: &serde_json::Value, key: &str, label: &str) -> (r: Result<u64, ParseError>)
    ensures
        r is Ok <==> micro_field_ok(jv_text(*v), key@),
        r matches Ok(n) ==> n == micro_field(jv_text(*v), key@),
        r matches Err(e) ==> (e matches ParseError::Malformed(d) && d@ == label@),
{
    match json_get(v, key) {
        Some(f) => match json_number_text(f) {
            Some(text) => match parse_decimal_micro(text.as_str()) {
                Some(n) => Ok(n),
                None => Err(ParseError::Malformed(label.to_owned())),
            },
            None => Err(ParseError::Malformed(label.to_owned())),
        },
        None => Err(ParseError::Malformed(label.to_owned())),
    }
}

/// The optional opaque payload: absent or JSON null becomes `None`, any
/// other value is carried as its canonical JSON text.
fn opt_payload(v: &serde_json::Value, key: &str) -> (r: Option<String>)
    ensures
        r is Some <==> payload_present(jv_text(*v), key@),
        r matches Some(s) ==> s@ == jv_field(jv_text(*v), key@),
{
    match json_get(v, key) {
        Some(f) => {
            if json_is_null(f) {
                None
            } else {
                Some(json_value_text(f))
            }
        },
        None => None,
    }
}

/// The client descriptor out of the raw measurement object.
fn extract_client(v: &serde_json::Value) -> (r: Result<ClientInfo, ParseError>)
    ensures
        r is Ok <==> (jv_has(jv_text(*v), "client"@) && client_ok(
            jv_field(jv_text(*v), "client"@),
        )),
        r matches Ok(ci) ==> is_extracted_client(ci, jv_field(jv_text(*v), "client"@)),
{
    let c = match json_get(v, "client") {
        Some(c) => c,
        None => {
            return Err(ParseError::Malformed("missing field: client".to_owned()));
        },
    };
    Ok(
        ClientInfo {
            country: req_string(c, "country", "missing or non-string field: client.country")?,
            ip: req_string(c, "ip", "missing or non-string field: client.ip")?,
            isp: req_string(c, "isp", "missing or non-string field: client.isp")?,
            ispdlavg: req_string(c, "ispdlavg", "missing or non-string field: client.ispdlavg")?,
            isprating: req_string(
                c,
                "isprating",
                "missing or non-string field: client.isprating",
            )?,
            ispulavg: req_string(c, "ispulavg", "missing or non-string field: client.ispulavg")?,
            lat: req_string(c, "lat", "missing or non-string field: client.lat")?,
            loggedin: req_string(c, "loggedin", "missing or non-string field: client.loggedin")?,
            lon: req_string(c, "lon", "missing or non-string field: client.lon")?,
            rating: req_string(c, "rating", "missing or non-string field: client.rating")?,
        },
    )
}

/// The server descriptor out of the raw measurement object.
fn extract_server(v: &serde_json::Value) -> (r: Result<ServerInfo, ParseError>)
    ensures
        r is Ok <==> (jv_has(jv_text(*v), "server"@) && server_ok(
            jv_field(jv_text(*v), "server"@),
        )),
        r matches Ok(si) ==> is_extracted_server(si, jv_field(jv_text(*v), "server"@)),
{
    let s = match json_get(v, "server") {
        Some(s) => s,
        None => {
            return Err(ParseError::Malformed("missing field: server".to_owned()));
        },
    };
    Ok(
        ServerInfo {
            cc: req_string(s, "cc", "missing or non-string field: server.cc")?,
            country: req_string(s, "country", "missing or non-string field: server.country")?,
            d: req_micro(s, "d", "missing or malformed numeric field: server.d")?,
            host: req_string(s, "host", "missing or non-string field: server.host")?,
            id: req_string(s, "id", "missing or non-string field: server.id")?,
            lat: req_string(s, "lat", "missing or non-string field: server.lat")?,
            latency: req_micro(s, "latency", "missing or malformed numeric field: server.latency")?,
            lon: req_string(s, "lon", "missing or non-string field: server.lon")?,
            name: req_string(s, "name", "missing or non-string field: server.name")?,
            sponsor: req_string(s, "sponsor", "missing or non-string field: server.sponsor")?,
            url: req_string(s, "url", "missing or non-string field: server.url")?,
        },
    )
}

/// The raw measurement's fields out of its JSON tree.
fn extract_measurement(v: &serde_json::Value) -> (r: Result<SpeedTestResponse, ParseError>)
    ensures
        r is Ok <==> doc_ok(jv_text(*v)),
        r matches Ok(resp) ==> is_extracted_response(resp, jv_text(*v)),
{
    Ok(
        SpeedTestResponse {
            bytes_received: req_u64(
                v,
                "bytes_received",
                "missing or non-integer field: bytes_received",
            )?,
            bytes_sent: req_u64(v, "bytes_sent", "missing or non-integer field: bytes_sent")?,
            client: extract_client(v)?,
            download: req_micro(v, "download", "missing or malformed numeric field: download")?,
            ping: req_micro(v, "ping", "missing or malformed numeric field: ping")?,
            server: extract_server(v)?,
            share: opt_payload(v, "share"),
            timestamp: req_string(v, "timestamp", "missing or non-string field: timestamp")?,
            upload: req_micro(v, "upload", "missing or malformed numeric field: upload")?,
        },
    )
}

/// Parses the measurement tool's raw JSON text into the canonical
/// record.
///
/// Succeeds exactly when the text is acceptable JSON whose required
/// fields all have their required shapes (`raw_ok`); the result's every
/// field equals the named read of the document, with the Mbps rates
/// derived exactly from the bps rates (`is_parsed_result`), so every
/// parsed record is well-formed. Anything else fails with
/// `ParseError::Malformed` and a detail naming what was wrong.
pub fn parse(raw: &str) -> (r: Result<SpeedTestResult, ParseError>)
    ensures
        r is Ok <==> raw_ok(raw@),
        r matches Ok(c) ==> is_parsed_result(c, raw@),
        r matches Ok(c) ==> result_wf(c),
{
    let tree = match json_from_str(raw) {
        Ok(t) => t,
        Err(e) => {
            return Err(ParseError::Malformed(json_error_text(&e)));
        },
    };
    let resp = extract_measurement(&tree)?;
    Ok(canonicalize(resp))
}

} // verus!
