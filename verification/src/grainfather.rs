//! Device service client logic: login-page scraping, cookie handling, and
//! interpretation of the service's responses.
//!
//! The HTTP calls themselves happen outside the library; everything that
//! decides what a response means — which cookie becomes the session token,
//! where the anti-forgery token hides in the login page, what a history
//! payload contains — is verified here on plain values.

use vstd::prelude::*;

use crate::bytes::{
    contains_subseq, filter_byte, find_byte, find_byte_in, has_subseq, lemma_find_byte,
    starts_with,
};
use crate::errors::GrainfatherError;
use crate::extract::{extract_reading, has_key, key_lookup, spec_extract, Extracted};
use crate::json::{json_doc_of, parse_json, JsonVal};
use vstd::slice::slice_subrange;
use vstd::string::StringExecFns;

verus! {

/// Opaque numeric identifier of a fermentation device; the key for
/// per-device memory.
#[derive(Eq, PartialEq, Hash, Copy, Clone, Debug, Structural)]
pub struct FermenterId(u64);

impl FermenterId {
    /// The identifier as the service reports it.
    pub closed spec fn spec_u64(self) -> u64 {
        self.0
    }

    /// Wrap a raw identifier.
    pub fn new(id: u64) -> (r: FermenterId)
        ensures
            r.spec_u64() == id,
    {
        FermenterId(id)
    }

    /// The raw identifier.
    pub fn as_u64(self) -> (r: u64)
        ensures
            r == self.spec_u64(),
    {
        self.0
    }
}

/// One monitored fermentation device, as the listing call reports it.
#[derive(Debug)]
pub struct Fermenter {
    pub id: FermenterId,
    pub name: String,
}

/// One temperature sample: the value as the service sent it (an opaque JSON
/// number, only carried through) and the moment the physical sample was
/// taken, in Unix seconds.
#[derive(Debug)]
pub struct TemperatureRecord {
    pub temperature: serde_json::Number,
    pub timestamp: i64,
}

/// The bytes of the field name that marks the anti-forgery token in the
/// login page.
pub open spec fn csrf_marker() -> Seq<u8> {
    seq![99u8, 115u8, 114u8, 102u8, 84u8, 111u8, 107u8, 101u8, 110u8]
}

/// The name prefix of the cookie that carries the session after login.
pub open spec fn auth_cookie_prefix() -> Seq<u8> {
    seq![114u8, 101u8, 109u8, 101u8, 109u8, 98u8, 101u8, 114u8, 95u8, 119u8, 101u8, 98u8, 95u8]
}

/// The anti-forgery token a comma-delimited segment yields: everything after
/// the segment's first colon, with every double quote removed; nothing if the
/// segment has no colon.
pub open spec fn token_from_segment(seg: Seq<u8>) -> Option<Seq<u8>> {
    match find_byte(seg, 58u8) {
        Some(i) => Some(seg.subrange(i + 1, seg.len() as int).filter(|x: u8| x != 34u8)),
        None => None,
    }
}

/// The anti-forgery token scraped from a login page body: the body is split
/// on commas, the first segment containing the marker field name is chosen,
/// and the token is read out of it; nothing if no segment has the marker, or
/// the chosen segment has no colon.
pub open spec fn scrape_token(s: Seq<u8>) -> Option<Seq<u8>>
    decreases s.len(),
    via scrape_token_decreases
{
    match find_byte(s, 44u8) {
        Some(i) => {
            if has_subseq(s.subrange(0, i), csrf_marker()) {
                token_from_segment(s.subrange(0, i))
            } else {
                scrape_token(s.subrange(i + 1, s.len() as int))
            }
        },
        None => {
            if has_subseq(s, csrf_marker()) {
                token_from_segment(s)
            } else {
                None
            }
        },
    }
}

#[via_fn]
proof fn scrape_token_decreases(s: Seq<u8>) {
    lemma_find_byte(s, 44u8);
}

/// The marker field name as bytes.
fn csrf_marker_bytes() -> (r: Vec<u8>)
    ensures
        r@ == csrf_marker(),
{
    let mut v: Vec<u8> = Vec::new();
    v.push(99);
    v.push(115);
    v.push(114);
    v.push(102);
    v.push(84);
    v.push(111);
    v.push(107);
    v.push(101);
    v.push(110);
    proof {
        assert(v@ =~= csrf_marker());
    }
    v
}

/// The session cookie prefix as bytes.
fn auth_cookie_prefix_bytes() -> (r: Vec<u8>)
    ensures
        r@ == auth_cookie_prefix(),
{
    let mut v: Vec<u8> = Vec::new();
    v.push(114);
    v.push(101);
    v.push(109);
    v.push(101);
    v.push(109);
    v.push(98);
    v.push(101);
    v.push(114);
    v.push(95);
    v.push(119);
    v.push(101);
    v.push(98);
    v.push(95);
    proof {
        assert(v@ =~= auth_cookie_prefix());
    }
    v
}

/// Scrape the anti-forgery token out of a login page body. This is a
/// best-effort textual scrape of an unversioned upstream page, isolated here
/// so the brittle parsing stands alone.
pub fn extract_csrf_token(body: &[u8]) -> (r: Option<Vec<u8>>)
    ensures
        match r {
            Some(t) => scrape_token(body@) == Some(t@),
            None => scrape_token(body@) is None,
        },
{
    let marker = csrf_marker_bytes();
    let mut start: usize = 0;
    proof {
        assert(body@.subrange(0, body@.len() as int) =~= body@);
    }
    loop
        invariant
            start <= body@.len(),
            marker@ == csrf_marker(),
            scrape_token(body@) == scrape_token(body@.subrange(start as int, body@.len() as int)),
        decreases body@.len() - start,
    {
        let suffix = slice_subrange(body, start, body.len());
        let comma = find_byte_in(suffix, 44);
        proof {
            lemma_find_byte(suffix@, 44u8);
        }
        let seg_end: usize = match comma {
            Some(j) => j,
            None => suffix.len(),
        };
        let seg = slice_subrange(suffix, 0, seg_end);
        if contains_subseq(seg, marker.as_slice()) {
            proof {
                lemma_find_byte(seg@, 58u8);
                match comma {
                    Some(j) => {
                        assert(suffix@.subrange(0, j as int) == seg@);
                    },
                    None => {
                        assert(suffix@.subrange(0, seg_end as int) =~= suffix@);
                    },
                }
                assert(scrape_token(suffix@) == token_from_segment(seg@));
            }
            match find_byte_in(seg, 58) {
                Some(c) => {
                    let tail = slice_subrange(seg, c + 1, seg.len());
                    let tok = filter_byte(tail, 34);
                    return Some(tok);
                },
                None => {
                    return None;
                },
            }
        }
        match comma {
            Some(j) => {
                proof {
                    assert(suffix@.subrange(0, j as int) == seg@);
                    assert(suffix@.subrange(j + 1, suffix@.len() as int) =~= body@.subrange(
                        start + j + 1,
                        body@.len() as int,
                    ));
                }
                start = start + j + 1;
            },
            None => {
                proof {
                    assert(suffix@.subrange(0, seg_end as int) =~= suffix@);
                }
                return None;
            },
        }
    }
}

/// Whether a byte may stand in an HTTP header value (visible characters,
/// space, and horizontal tab).
pub open spec fn header_byte_ok(b: u8) -> bool {
    b == 9 || (b >= 32 && b != 127)
}

/// Whether every byte of `s` may stand in an HTTP header value.
pub open spec fn header_value_ok(s: Seq<u8>) -> bool {
    forall|i: int| 0 <= i < s.len() ==> header_byte_ok(#[trigger] s[i])
}

/// Check that every byte of `s` may stand in an HTTP header value.
fn check_header_value(s: &[u8]) -> (r: bool)
    ensures
        r == header_value_ok(s@),
{
    let mut i: usize = 0;
    while i < s.len()
        invariant
            i <= s@.len(),
            forall|k: int| 0 <= k < i ==> header_byte_ok(#[trigger] s@[k]),
        decreases s@.len() - i,
    {
        let b = s[i];
        if !(b == 9 || (b >= 32 && b != 127)) {
            return false;
        }
        i += 1;
    }
    true
}

/// The `name=value` form in which a cookie travels in a request header.
pub open spec fn cookie_line(name: Seq<u8>, value: Seq<u8>) -> Seq<u8> {
    name + seq![61u8] + value
}

/// Format one cookie as `name=value`.
pub fn format_cookie(name: &[u8], value: &[u8]) -> (r: Vec<u8>)
    ensures
        r@ == cookie_line(name@, value@),
{
    let mut out: Vec<u8> = Vec::new();
    out.extend_from_slice(name);
    out.push(61);
    out.extend_from_slice(value);
    proof {
        assert(out@ =~= cookie_line(name@, value@));
    }
    out
}

/// The session token derived from a login response's cookies: the first
/// cookie whose name starts with the session prefix, as `name=value`.
pub open spec fn spec_find_auth_cookie(cs: Seq<(Vec<u8>, Vec<u8>)>) -> Option<Seq<u8>>
    decreases cs.len(),
{
    if cs.len() == 0 {
        None
    } else if auth_cookie_prefix().is_prefix_of(cs[0].0@) {
        Some(cookie_line(cs[0].0@, cs[0].1@))
    } else {
        spec_find_auth_cookie(cs.drop_first())
    }
}

/// Find the session cookie among a response's cookies and format it.
pub fn find_auth_cookie(cookies: &Vec<(Vec<u8>, Vec<u8>)>) -> (r: Option<Vec<u8>>)
    ensures
        match r {
            Some(t) => spec_find_auth_cookie(cookies@) == Some(t@),
            None => spec_find_auth_cookie(cookies@) is None,
        },
{
    let prefix = auth_cookie_prefix_bytes();
    let mut i: usize = 0;
    proof {
        assert(cookies@.subrange(0, cookies@.len() as int) =~= cookies@);
    }
    while i < cookies.len()
        invariant
            i <= cookies@.len(),
            prefix@ == auth_cookie_prefix(),
            spec_find_auth_cookie(cookies@) == spec_find_auth_cookie(
                cookies@.subrange(i as int, cookies@.len() as int),
            ),
        decreases cookies@.len() - i,
    {
        proof {
            assert(cookies@.subrange(i as int, cookies@.len() as int).drop_first()
                =~= cookies@.subrange(i + 1, cookies@.len() as int));
            assert(cookies@.subrange(i as int, cookies@.len() as int)[0] == cookies@[i as int]);
        }
        let pair = &cookies[i];
        if starts_with(pair.0.as_slice(), prefix.as_slice()) {
            return Some(format_cookie(pair.0.as_slice(), pair.1.as_slice()));
        }
        i += 1;
    }
    proof {
        assert(cookies@.subrange(cookies@.len() as int, cookies@.len() as int)
            =~= Seq::<(Vec<u8>, Vec<u8>)>::empty());
    }
    None
}

/// Whether every cookie of a response can travel back in request headers.
pub open spec fn cookies_header_ok(cs: Seq<(Vec<u8>, Vec<u8>)>) -> bool {
    forall|i: int|
        0 <= i < cs.len() ==> header_value_ok(#[trigger] cs[i].0@) && header_value_ok(cs[i].1@)
}

/// What the login POST needs, prepared from the login page response: the
/// scraped anti-forgery token and the page's cookies formatted as
/// `name=value` header lines.
#[derive(Debug)]
pub struct LoginPrep {
    pub csrf_token: Vec<u8>,
    pub cookie_headers: Vec<Vec<u8>>,
}

/// Interpret the login page response (the unauthenticated GET): require
/// status 200, require usable cookies, and scrape the anti-forgery token out
/// of the body.
pub fn prepare_login(status: u16, cookies: Vec<(Vec<u8>, Vec<u8>)>, body: String) -> (r: Result<
    LoginPrep,
    GrainfatherError,
>)
    ensures
        status != 200 ==> (r matches Err(GrainfatherError::UnexpectedStatusCode {
            status_code,
            payload,
        }) && status_code == status && payload == body),
        status == 200 && cookies@.len() == 0 ==> r matches Err(
            GrainfatherError::NoSetCookieHeader,
        ),
        status == 200 && cookies@.len() > 0 && !cookies_header_ok(cookies@) ==> r matches Err(
            GrainfatherError::InvalidSetCookieHeader,
        ),
        status == 200 && cookies@.len() > 0 && cookies_header_ok(cookies@) && scrape_token(
            vstd::utf8::encode_utf8(body@),
        ) is None ==> r matches Err(GrainfatherError::UnableToFindCSRFToken),
        status == 200 && cookies@.len() > 0 && cookies_header_ok(cookies@) && scrape_token(
            vstd::utf8::encode_utf8(body@),
        ) is Some ==> (r matches Ok(prep) && Some(prep.csrf_token@) == scrape_token(
            vstd::utf8::encode_utf8(body@),
        ) && prep.cookie_headers@.len() == cookies@.len() && forall|i: int|
            0 <= i < cookies@.len() ==> #[trigger] prep.cookie_headers@[i]@ == cookie_line(
                cookies@[i].0@,
                cookies@[i].1@,
            )),
{
    if status != 200 {
        return Err(GrainfatherError::UnexpectedStatusCode { status_code: status, payload: body });
    }
    if cookies.len() == 0 {
        return Err(GrainfatherError::NoSetCookieHeader);
    }
    let mut cookie_headers: Vec<Vec<u8>> = Vec::new();
    let mut i: usize = 0;
    while i < cookies.len()
        invariant
            status == 200,
            cookies@.len() > 0,
            i <= cookies@.len(),
            cookie_headers@.len() == i,
            forall|k: int| 0 <= k < i ==> header_value_ok(#[trigger] cookies@[k].0@),
            forall|k: int| 0 <= k < i ==> header_value_ok(#[trigger] cookies@[k].1@),
            forall|k: int|
                0 <= k < i ==> #[trigger] cookie_headers@[k]@ == cookie_line(
                    cookies@[k].0@,
                    cookies@[k].1@,
                ),
        decreases cookies@.len() - i,
    {
        let pair = &cookies[i];
        if !check_header_value(pair.0.as_slice()) || !check_header_value(pair.1.as_slice()) {
            return Err(GrainfatherError::InvalidSetCookieHeader);
        }
        proof {
            assert(header_value_ok(cookies@[i as int].0@));
            assert(header_value_ok(cookies@[i as int].1@));
        }
        cookie_headers.push(format_cookie(pair.0.as_slice(), pair.1.as_slice()));
        i += 1;
    }
    match extract_csrf_token(body.as_str().as_bytes()) {
        Some(csrf_token) => Ok(LoginPrep { csrf_token, cookie_headers }),
        None => Err(GrainfatherError::UnableToFindCSRFToken),
    }
}

/// Interpret the login POST response: require status 200 and derive the
/// session token from the response's cookies.
pub fn complete_login(status: u16, cookies: Vec<(Vec<u8>, Vec<u8>)>, body: String) -> (r: Result<
    Vec<u8>,
    GrainfatherError,
>)
    ensures
        status != 200 ==> (r matches Err(GrainfatherError::UnexpectedStatusCode {
            status_code,
            payload,
        }) && status_code == status && payload == body),
        status == 200 && spec_find_auth_cookie(cookies@) is None ==> r matches Err(
            GrainfatherError::UnableToFindAuthCookie,
        ),
        status == 200 && spec_find_auth_cookie(cookies@) is Some ==> (r matches Ok(token)
            && Some(token@) == spec_find_auth_cookie(cookies@)),
{
    if status != 200 {
        return Err(GrainfatherError::UnexpectedStatusCode { status_code: status, payload: body });
    }
    match find_auth_cookie(&cookies) {
        Some(token) => Ok(token),
        None => Err(GrainfatherError::UnableToFindAuthCookie),
    }
}

/// The earliest instant an `OffsetDateTime` can hold, in Unix seconds
/// (midnight opening year -9999).
pub const MIN_UNIX_SECONDS: i64 = -377705116800;

/// The latest instant an `OffsetDateTime` can hold, in Unix seconds (the
/// last second of year 9999).
pub const MAX_UNIX_SECONDS: i64 = 253402300799;

/// Whether a timestamp lies in the representable range.
pub open spec fn valid_unix_seconds(s: int) -> bool {
    MIN_UNIX_SECONDS <= s <= MAX_UNIX_SECONDS
}

/// Milliseconds to seconds: division by 1000 truncating towards zero (the
/// sub-second component is discarded, not rounded).
pub open spec fn millis_to_seconds(ms: int) -> int {
    if ms >= 0 {
        ms / 1000
    } else {
        -((-ms) / 1000)
    }
}

/// Convert a timestamp from milliseconds to seconds, truncating.
pub fn unix_millis_to_seconds(ms: i64) -> (s: i64)
    ensures
        s as int == millis_to_seconds(ms as int),
{
    if ms >= 0 {
        let q: u64 = (ms as u64) / 1000;
        q as i64
    } else {
        let neg: u64 = (-(ms as i128)) as u64;
        let q: u64 = neg / 1000;
        proof {
            assert(q <= neg / 1000);
            assert(neg == -(ms as int));
        }
        -(q as i64)
    }
}

/// Interpret a history response: require status 200, parse the payload, and
/// extract the latest sample, converting its timestamp to Unix seconds. A
/// candidate whose samples do not decode is reported, not skipped; a
/// timestamp out of the representable range is an error of its own.
pub fn interpret_history_response(status: u16, payload: String) -> (r: Result<
    Option<TemperatureRecord>,
    GrainfatherError,
>)
    ensures
        status != 200 ==> (r matches Err(GrainfatherError::UnexpectedStatusCode {
            status_code,
            payload: p,
        }) && status_code == status && p == payload),
        status == 200 ==> match json_doc_of(payload@) {
            None => r matches Err(GrainfatherError::ResponseParsing { payload: p }) && p
                == payload,
            Some(doc) => match spec_extract(doc) {
                Extracted::Undecodable => r matches Err(GrainfatherError::ResponseParsing {
                    payload: p,
                }) && p == payload,
                Extracted::NoReading => r matches Ok(rec) && rec is None,
                Extracted::Sample { timestamp_millis, temperature } => {
                    if valid_unix_seconds(millis_to_seconds(timestamp_millis as int)) {
                        r matches Ok(rec) && rec matches Some(t) && t.temperature == temperature
                            && t.timestamp as int == millis_to_seconds(timestamp_millis as int)
                    } else {
                        r matches Err(GrainfatherError::ResponseTimestamp { unix_seconds })
                            && unix_seconds as int == millis_to_seconds(timestamp_millis as int)
                    }
                },
            },
        },
{
    if status != 200 {
        return Err(GrainfatherError::UnexpectedStatusCode { status_code: status, payload });
    }
    let doc = match parse_json(payload.as_str()) {
        Some(d) => d,
        None => {
            return Err(GrainfatherError::ResponseParsing { payload });
        },
    };
    match extract_reading(&doc) {
        Extracted::Undecodable => Err(GrainfatherError::ResponseParsing { payload }),
        Extracted::NoReading => Ok(None),
        Extracted::Sample { timestamp_millis, temperature } => {
            let secs = unix_millis_to_seconds(timestamp_millis);
            if MIN_UNIX_SECONDS <= secs && secs <= MAX_UNIX_SECONDS {
                Ok(Some(TemperatureRecord { temperature, timestamp: secs }))
            } else {
                Err(GrainfatherError::ResponseTimestamp { unix_seconds: secs })
            }
        },
    }
}

/// The key under which a listed device carries its identifier.
pub open spec fn id_key() -> Seq<char> {
    "id"@
}

/// The key under which a listed device carries its name.
pub open spec fn name_key() -> Seq<char> {
    "name"@
}

/// How one element of the device listing decodes: an object with an `id`
/// entry holding an unsigned integer and a `name` entry holding a string.
pub open spec fn fermenter_fields(v: JsonVal) -> Option<(u64, Seq<char>)> {
    match v {
        JsonVal::Obj(es) => {
            if has_key(es@, id_key()) && has_key(es@, name_key()) {
                match (key_lookup(es@, id_key()), key_lookup(es@, name_key())) {
                    (JsonVal::Num(n), JsonVal::Str(s)) => match n.uint_value {
                        Some(id) => Some((id, s@)),
                        None => None,
                    },
                    _ => None,
                }
            } else {
                None
            }
        },
        _ => None,
    }
}

/// Whether every element of the listing decodes.
pub open spec fn fermenters_decodable(xs: Seq<JsonVal>) -> bool {
    forall|i: int| 0 <= i < xs.len() ==> fermenter_fields(#[trigger] xs[i]) is Some
}

/// Decode one element of the device listing.
fn decode_fermenter(v: &JsonVal) -> (r: Option<Fermenter>)
    ensures
        match r {
            Some(f) => fermenter_fields(*v) matches Some(fields) && f.id.spec_u64() == fields.0
                && f.name@ == fields.1,
            None => fermenter_fields(*v) is None,
        },
{
    let es = match v {
        JsonVal::Obj(es) => es,
        _ => {
            return None;
        },
    };
    let ik = String::from_str("id");
    let nk = String::from_str("name");
    let idv = match crate::extract::lookup_key(es, &ik) {
        Some(w) => w,
        None => {
            return None;
        },
    };
    let namev = match crate::extract::lookup_key(es, &nk) {
        Some(w) => w,
        None => {
            return None;
        },
    };
    match (idv, namev) {
        (JsonVal::Num(n), JsonVal::Str(s)) => {
            match n.uint_value {
                Some(id) => Some(Fermenter { id: FermenterId(id), name: s.clone() }),
                None => None,
            }
        },
        _ => None,
    }
}

/// Interpret a device listing response: require status 200 and decode the
/// payload as an array of devices. A payload that does not decode surfaces
/// the decoder's message, as a transport-level failure.
pub fn interpret_fermenter_list(status: u16, payload: String) -> (r: Result<
    Vec<Fermenter>,
    GrainfatherError,
>)
    ensures
        status != 200 ==> (r matches Err(GrainfatherError::UnexpectedStatusCode {
            status_code,
            payload: p,
        }) && status_code == status && p == payload),
        status == 200 ==> match json_doc_of(payload@) {
            None => r matches Err(GrainfatherError::Transport { message }) && message@
                == "error decoding response body"@,
            Some(doc) => match doc {
                JsonVal::Arr(xs) => {
                    if fermenters_decodable(xs@) {
                        r matches Ok(fs) && fs@.len() == xs@.len() && (forall|i: int|
                            0 <= i < xs@.len() ==> (#[trigger] fs@[i].id).spec_u64()
                                == (fermenter_fields(xs@[i])->0).0) && (forall|i: int|
                            0 <= i < xs@.len() ==> (#[trigger] fs@[i].name)@
                                == (fermenter_fields(xs@[i])->0).1)
                    } else {
                        r matches Err(GrainfatherError::Transport { message }) && message@
                            == "error decoding response body"@
                    }
                },
                _ => r matches Err(GrainfatherError::Transport { message }) && message@
                    == "error decoding response body"@,
            },
        },
{
    if status != 200 {
        return Err(GrainfatherError::UnexpectedStatusCode { status_code: status, payload });
    }
    let xs = match parse_json(payload.as_str()) {
        Some(JsonVal::Arr(xs)) => xs,
        _ => {
            return Err(
                GrainfatherError::Transport {
                    message: String::from_str("error decoding response body"),
                },
            );
        },
    };
    let mut fs: Vec<Fermenter> = Vec::new();
    let mut i: usize = 0;
    while i < xs.len()
        invariant
            status == 200,
            json_doc_of(payload@) == Some(JsonVal::Arr(xs)),
            i <= xs@.len(),
            fs@.len() == i,
            forall|k: int| 0 <= k < i ==> fermenter_fields(#[trigger] xs@[k]) is Some,
            forall|k: int|
                0 <= k < i ==> (#[trigger] fs@[k].id).spec_u64() == (fermenter_fields(xs@[k])->0).0,
            forall|k: int|
                0 <= k < i ==> (#[trigger] fs@[k].name)@ == (fermenter_fields(xs@[k])->0).1,
        decreases xs@.len() - i,
    {
        match decode_fermenter(&xs[i]) {
            Some(f) => {
                fs.push(f);
            },
            None => {
                return Err(
                    GrainfatherError::Transport {
                        message: String::from_str("error decoding response body"),
                    },
                );
            },
        }
        i += 1;
    }
    Ok(fs)
}

/// Encodes the ISO-8601 format configuration used for the history query's
/// time bound: calendar date, time, and offset, with separators and exactly
/// three decimal digits of seconds.
pub const ISO8601_MILLIS_CONFIG: u128 = 6651332276405715711615582692349837312;

/// The ISO-8601 text (millisecond precision) of an instant given in Unix
/// nanoseconds; nothing when the instant is out of the representable range.
pub uninterp spec fn iso8601_millis_of(unix_nanos: i128) -> Option<Seq<char>>;

/// Relies on `time::OffsetDateTime::from_unix_timestamp_nanos`, which
/// accepts exactly the representable instants, and on
/// `OffsetDateTime::format` with the `Iso8601` well-known format: the text
/// depends on the instant and the format configuration alone.
#[verifier::external_body]
fn format_iso8601_millis(unix_nanos: i128) -> (r: Option<String>)
    ensures
        match r {
            Some(s) => iso8601_millis_of(unix_nanos) == Some(s@),
            None => iso8601_millis_of(unix_nanos) is None,
        },
{
    let odt = match time::OffsetDateTime::from_unix_timestamp_nanos(unix_nanos) {
        Ok(t) => t,
        Err(_) => return None,
    };
    odt.format(&time::format_description::well_known::Iso8601::<ISO8601_MILLIS_CONFIG>).ok()
}

/// The `from` query parameter of a history request: the instant one hour
/// before `now` (given in Unix milliseconds), as ISO-8601 text with
/// millisecond precision.
pub fn history_from_param(now_millis: i64) -> (r: Option<String>)
    ensures
        ({
            let nanos = ((now_millis as int - 3600000) * 1000000) as i128;
            match r {
                Some(s) => iso8601_millis_of(nanos) == Some(s@),
                None => iso8601_millis_of(nanos) is None,
            }
        }),
{
    let from_nanos: i128 = ((now_millis as i128) - 3600000) * 1000000;
    format_iso8601_millis(from_nanos)
}

} // verus!
